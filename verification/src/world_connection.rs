use vstd::prelude::*;

verus! {

/// What one poll of the world server's message channel gives.
#[derive(Clone, Copy, Debug, PartialEq, Eq, Structural)]
pub enum WorldServerEvent {
    /// The server accepted the connection request.
    ConnectionAccepted,
    /// The server refused the connection request.
    ConnectionRejected,
    /// The server sent the list of the account's characters.
    CharacterList,
    /// The server sent a message that this stage does not handle.
    OtherMessage,
    /// The channel has been closed.
    Disconnected,
    /// No message is waiting.
    Empty,
}

/// What the poll loop does after an event.
#[derive(Clone, Copy, Debug, PartialEq, Eq, Structural)]
pub enum WorldConnectionNext {
    /// Poll for the next message.
    ReadNext,
    /// Stop polling until the next frame; the connection stays.
    Stop,
    /// Stop polling and drop the connection: it has been lost.
    ConnectionLost,
}

/// The decisions taken on one event of the world server connection.
#[derive(Clone, Copy, Debug, PartialEq, Eq, Structural)]
pub struct WorldConnectionStep {
    /// Ask the server for the character list.
    pub request_character_list: bool,
    /// Switch the application to character selection.
    pub enter_character_select: bool,
    /// Keep the character list that the event carries.
    pub store_character_list: bool,
    /// Report a message that this stage does not handle.
    pub report_unexpected: bool,
    pub next: WorldConnectionNext,
}

/// The step that an event calls for, given whether the application is in
/// character selection already.
pub open spec fn world_connection_step_spec(in_character_select: bool, event: WorldServerEvent) -> WorldConnectionStep {
    let idle = WorldConnectionStep {
        request_character_list: false,
        enter_character_select: false,
        store_character_list: false,
        report_unexpected: false,
        next: WorldConnectionNext::ReadNext,
    };
    match event {
        WorldServerEvent::ConnectionAccepted => WorldConnectionStep { request_character_list: true, ..idle },
        WorldServerEvent::ConnectionRejected => WorldConnectionStep { next: WorldConnectionNext::ConnectionLost, ..idle },
        WorldServerEvent::CharacterList => WorldConnectionStep {
            enter_character_select: !in_character_select,
            store_character_list: true,
            ..idle
        },
        WorldServerEvent::OtherMessage => WorldConnectionStep { report_unexpected: true, ..idle },
        WorldServerEvent::Disconnected => WorldConnectionStep { next: WorldConnectionNext::ConnectionLost, ..idle },
        WorldServerEvent::Empty => WorldConnectionStep { next: WorldConnectionNext::Stop, ..idle },
    }
}

/// Decides what to do on one event of the world server connection: an
/// accepted connection asks for the character list; a character list is
/// kept, switching to character selection unless already there; another
/// message is reported; a refusal or a closed channel loses the connection;
/// an empty channel ends the poll.
pub fn world_connection_step(in_character_select: bool, event: WorldServerEvent) -> (step: WorldConnectionStep)
    ensures
        step == world_connection_step_spec(in_character_select, event),
        step.next == WorldConnectionNext::ConnectionLost <==> (event == WorldServerEvent::ConnectionRejected
            || event == WorldServerEvent::Disconnected),
        step.next == WorldConnectionNext::Stop <==> event == WorldServerEvent::Empty,
        step.request_character_list <==> event == WorldServerEvent::ConnectionAccepted,
        step.store_character_list <==> event == WorldServerEvent::CharacterList,
        step.enter_character_select <==> (event == WorldServerEvent::CharacterList && !in_character_select),
        step.report_unexpected <==> event == WorldServerEvent::OtherMessage,
{
    let idle = WorldConnectionStep {
        request_character_list: false,
        enter_character_select: false,
        store_character_list: false,
        report_unexpected: false,
        next: WorldConnectionNext::ReadNext,
    };
    match event {
        WorldServerEvent::ConnectionAccepted => WorldConnectionStep { request_character_list: true, ..idle },
        WorldServerEvent::ConnectionRejected => WorldConnectionStep { next: WorldConnectionNext::ConnectionLost, ..idle },
        WorldServerEvent::CharacterList => WorldConnectionStep {
            enter_character_select: !in_character_select,
            store_character_list: true,
            ..idle
        },
        WorldServerEvent::OtherMessage => WorldConnectionStep { report_unexpected: true, ..idle },
        WorldServerEvent::Disconnected => WorldConnectionStep { next: WorldConnectionNext::ConnectionLost, ..idle },
        WorldServerEvent::Empty => WorldConnectionStep { next: WorldConnectionNext::Stop, ..idle },
    }
}

} // verus!
