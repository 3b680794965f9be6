# Trail

A terminal program that helps students and developers keep track of what
they were last working on: projects, dated updates on each project, and a
read-only view of a project's git repository.

## Layout

- `src/` is the library, verified with Verus:
  - `keys.rs` and `gitkeys.rs`: what every key press does, as a step from one
    state of the interface to the next plus the outside work it asks for;
  - `replies.rs`: what the answers to that work (a save, a load, a deletion,
    a directory check) do;
  - `laws.rs`: what holds over any run (the states stay consistent, a pending
    deletion blocks other keys, a failed save keeps the draft, ...);
  - `input.rs`: the text field and the drafts of the two forms;
  - `field.rs`: how the text field wraps, grows and scrolls, and where its
    cursor stands;
  - `app.rs`, `gitview.rs`, `layout.rs`: the state of the interface, the git
    view and the arithmetic of the screen;
  - `git.rs`: reading what git prints (branches, commits, diffs, status);
  - `update.rs`: the daily check for a newer release;
  - `text.rs`, `model.rs`: strings and records.
- `app/` is the program around it: the terminal, the SQLite database, running
  git, the network request of the update check, and drawing the screen.
- `tests/` drives the library as the program does.
