# yawl

The terminal interface of a coding agent: what it reads from the keyboard and
the mouse, what it decides, and what it draws. The library under `src/` is
written in Verus; every function states in its contract what it returns or
changes, and the laws that span functions stand at the end of each module as
public proof functions.

- `events`, `editor`, `places`, `tags`, `clipboard`, `completion`, `files`:
  input, the composer with its rows and its images, and what it offers.
- `driver`, `busy`, `submission`, `queue`, `goals`, `sessions`, `outcomes`,
  `endings`: what comes next, what a message or a command leads to, at rest and
  while a turn runs, and how an outcome is shown.
- `state`, `actions`, `settings`, `config`, `connection`, `bar_editor`, and the
  modules under `picker`: the state, its menus and the settings.
- `git`: the git dashboard with its repository data, diffs, background jobs and
  the steps of each operation.
- `frame`, `screen`, `questions`, `dashboard`, `highlight`, `tables`,
  `markdown`, `style`, `rows`: drawing.
- `text`, `order`, `model`: text, sorting and the models of collections.

`app/` holds what reads, writes and runs programs: the terminal, the git
worker, the clipboard, the list of files and the loop around the library.
`tests/` runs the library on concrete values.

What is believed without proof is the behaviour of a few functions of the
standard library and of `unicode-width`; each stands behind a declaration whose
comment says what it claims.
