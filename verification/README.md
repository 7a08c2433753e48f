# rose_ui

The user-interface resource model of a game client, verified with Verus.

- `src/sheet_type.rs`: the sprite sheet types, their order, the tables from
  dialog module ids to sheets, and `UiSpriteSheetMap`, one value per sheet type.
- `src/resources.rs`: textures, sprite sheets, name tables and the resources
  record; sprite and image lookup by index and by module id and name.
- `src/refresh.rs`: recording what the asset store reports of each texture,
  and the refresh of all user-interface textures.
- `src/loading.rs`: where each sheet comes from, asset paths, the dialog files
  and the assembly of the resources record.
- `src/world_connection.rs`: the decisions on each event of the world server
  connection.
- `src/collider_outline.rs`: the layout of collider outlines in debug line
  buffers.

`app/` holds the engine systems around the library: asset loading, texture
queries, drawing, network channels and floating-point geometry.
