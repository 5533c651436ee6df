# easybite

The built-in library of the EasyBite scripting language: its values, arrays,
dictionaries and conversions, dates and times, and the state behind its form
controls (forms, buttons, text boxes, lists, tables, trees, menus, layouts,
pickers, plots, message boxes and file dialogs).

- `src/` is the library, verified with Verus: every public function states
  in `requires` and `ensures` what it does, and `src/laws.rs` proves the
  properties that relate several of them.
- `tests/` runs the library on concrete values.
- `app/` is the host side that Verus does not check: the window drawn with
  `eframe`, plots drawn with `plotters`, file dialogs, files, and the
  reading and writing of numbers in floating point, which the library takes
  as functions supplied by its caller.
