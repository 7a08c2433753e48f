//! The user-interface resource model of a game client: sprite sheets and
//! their textures, sprite lookup by module and name, the loading and refresh
//! of texture sizes, the world-server connection decisions and the outline
//! geometry of colliders drawn in debug views.

pub mod sheet_type;
pub mod resources;
pub mod refresh;
pub mod loading;
pub mod world_connection;
pub mod collider_outline;
