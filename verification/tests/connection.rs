use rose_ui::world_connection::{world_connection_step, WorldConnectionNext, WorldConnectionStep, WorldServerEvent};

fn idle(next: WorldConnectionNext) -> WorldConnectionStep {
    WorldConnectionStep {
        request_character_list: false,
        enter_character_select: false,
        store_character_list: false,
        report_unexpected: false,
        next,
    }
}

#[test]
fn accepted_connection_asks_for_characters() {
    let step = world_connection_step(false, WorldServerEvent::ConnectionAccepted);
    assert_eq!(step, WorldConnectionStep { request_character_list: true, ..idle(WorldConnectionNext::ReadNext) });
}

#[test]
fn character_list_enters_selection_once() {
    assert_eq!(
        world_connection_step(false, WorldServerEvent::CharacterList),
        WorldConnectionStep { enter_character_select: true, store_character_list: true, ..idle(WorldConnectionNext::ReadNext) }
    );
    assert_eq!(
        world_connection_step(true, WorldServerEvent::CharacterList),
        WorldConnectionStep { store_character_list: true, ..idle(WorldConnectionNext::ReadNext) }
    );
}

#[test]
fn refusal_and_disconnect_lose_the_connection() {
    for in_select in [false, true] {
        assert_eq!(world_connection_step(in_select, WorldServerEvent::ConnectionRejected), idle(WorldConnectionNext::ConnectionLost));
        assert_eq!(world_connection_step(in_select, WorldServerEvent::Disconnected), idle(WorldConnectionNext::ConnectionLost));
        assert_eq!(world_connection_step(in_select, WorldServerEvent::Empty), idle(WorldConnectionNext::Stop));
        assert_eq!(
            world_connection_step(in_select, WorldServerEvent::OtherMessage),
            WorldConnectionStep { report_unexpected: true, ..idle(WorldConnectionNext::ReadNext) }
        );
    }
}
