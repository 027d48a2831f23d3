# mmorpg

The rules, accounts and sessions of a small online role-playing game (four classes, eight
specializations, forty skills, levels 1 to 100), written in Verus with their contracts
proved.

- `src/` — the library. Each request the server answers (registration, login, creating,
  selecting and deleting characters, choosing a specialization) is a step function:
  the caller performs the database action it asks for and hands back the outcome.
  Sessions, experience and levels, periodic saving of positions, the client's interface
  stack, login form and character builder live here too. Password hashing (bcrypt),
  tokens (jsonwebtoken) and the clock (chrono) are called through small trusted
  functions whose contracts are stated in their doc comments.
- `tests/` — tests of the library on concrete values.
- `app/` — the game server program: UDP and bincode, the SQLite store (sqlx), the
  experience curve (floating point), and the loop that drives the library's steps.

The game client's rendering, UI layout, camera, physics and the floating-point collision
and lighting code are built on Bevy and Rapier and are not part of this crate: neither
the library nor `app/` holds them. The client's decisions that work on plain values (the
login form, character builder and selection screen, the interface stack and Escape key,
the specialization trainer, the collision events and the spatial grid) are in `src/`.
