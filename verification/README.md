# Strata

The rules of a column-based file browser, as a Verus library: what a pane shows while its folder is
read, which rows a filter keeps and where they come from, what a press, a key, a drop or a menu
leads to, how cut files are told apart from copied ones, how collisions, archives, mounts and the
trash are dealt with, and how the view answers each event of the model behind it.

- `src/` holds the library. Each function states what it returns or changes; the `law_` functions
  state what holds of several of them together. What the library takes from the standard library
  without proof is declared in `text.rs` and `paths.rs`.
- `tests/` runs it on concrete values.
- `app/` is the window around it: the toolkit, the file system and everything that is computed in
  floating-point numbers.
