# game

Rules of a first-person horror game in a haunted hotel, verified with Verus.

- `src/` is the verified library: the inventory (`items`), the rooms and
  doors of the hotel and how opening doors unlocks rooms (`world`), what
  happens when the player uses a door, the CD player or a hotbar item
  (`playing`), the game phases and key handling (`game_phase`), the 16:9
  viewport arithmetic (`viewport`), player ids (`network`), the developer
  console log (`devmode`), mesh index lists (`renderer`) and skin tones
  (`character`).
- `app/` is the game program around it: window, OpenGL rendering, the egui
  menus, player movement and physics, sanity, Lua scripting, settings files
  and the network message types. It works in floating point and talks to
  the outside world, so it is not verified.
- `tests/` runs the library on concrete cases.
