# pizzatopia

A 2D platformer with a level editor. The game's rules live in a library
verified with Verus; the application around it opens the window, draws,
reads and writes level files and does the floating-point physics.

- `src/` — the verified library: input bookkeeping (`input`, `systems::input`),
  collision and gravity decisions (`systems::physics`), hits and pickups
  (`systems::game`), the player's and the enemies' decisions
  (`systems::player`, `systems::ai`), the editor's key handling and event
  processing (`systems::editor`), the console commands (`systems::console`),
  sprite choices (`systems::graphics`), the editor's user interfaces (`ui`)
  and the state transitions (`states`). Values that are `f32` in the game are
  carried as their bit patterns (`f32::to_bits`).
- `tests/` — tests of the library on concrete values.
- `app/` — the amethyst application that runs the library's decisions.

The application needs one of amethyst's graphics backend features (`vulkan`
on Windows and Linux, `metal` on macOS) and the assets and configuration
files of the game next to it.

## Why input names live in a `Registry`

The input bookkeeping keys its statistics by the bound names (`String`s).
vstd describes what a `HashMap` holds only for key types that obey its hash
model (`obeys_key_model`), and what a `BTreeMap` holds only for key types
whose ordering obeys its comparison laws (`key_obeys_cmp_spec`). It
establishes both for the primitive types, not for `String`, and the only way
to claim them for `String` is an unproved assumption. So the library keeps
names and values in `registry::Registry`, two parallel vectors with the
invariant that no name occurs twice, whose view is a `Map` from names to
values. Lookups, replacements and insertions are proved against that map.
