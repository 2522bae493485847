# todo_tui

A terminal todo manager: todos grouped in projects, a table of todos and a
list of projects with a selection, dialogs to create and edit them, and a
month calendar to pick due dates.

- `src/` is the verified library, written with Verus: the models, the
  calendar arithmetic, the lists and their selections, the text inputs, the
  dialogs, the key handling (`update`), and the operations that a key starts
  against the todo store, as state machines that take the store's answers
  one at a time (`operation`).
- `tests/` runs the library on concrete inputs, with an in-memory store.
- `app/` is the program around it: the terminal, the SQLite store that
  answers the library's requests, and the drawing.
