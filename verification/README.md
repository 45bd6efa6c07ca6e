# space_game

The rules of a small real-time space strategy game, verified with Verus.

The player commands a fleet: selects ships with clicks and drags, orders them
to move, follow, mine or attack, and steps through formations. `src/` holds
the decisions the game makes every frame, each with a contract proved by
Verus:

- `controls`: the mouse-button state machine (up, down, clicked, dragging,
  dragged) and the held keys;
- `selection`: clicking, dragging a rectangle, following with the camera;
- `orders`: what a right click orders, and to which ships;
- `systems`: deleting objects with everything they carry, smoke trails,
  keyboard and mouse events, finishing orders;
- `combat`: which ships fire and which missiles hit;
- `maps`: a map that hands out its own identifiers;
- `list`: a list with a selected entry that wraps around;
- `summary`: head counts by kind for the status panel;
- `fleet`: the fleet a new game starts with;
- `ships`, `people`, `assets`, `resources`, `star_system`: the game's data.

The public `law_*` proof functions state properties that span several
operations, such as a lookup finding what `push` stored, or a second shift
click undoing the first.

`app/` is a headless driver: it reads the player's input from standard input,
one event per line, and keeps what cannot be verified here: floating-point
positions, the camera, movement, and saving to a file.
