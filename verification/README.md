# Phoenix Engine

A 2D action-adventure game engine with an egui editor.

- `src/` is the verified library (Verus): the entity bookkeeping around the
  `hecs` store, input bindings, resource cache, inventory and equipment,
  dialogue, the combat and player rules, scenes, and the editor's modes and
  panel state. Each public function states its behaviour in `requires` /
  `ensures`, and the laws that relate several functions are proof functions
  named `law_*`.
- `tests/` exercises the library on concrete values.
- `app/` is the editor program: the egui window, file and Python I/O, audio,
  and the floating-point parts (transforms, physics, timers, rendering),
  which call into the library for the rules.
