# themeprism

The verified core of a terminal theme editor: the interaction model of its user interface
(surfaces, focus path, input modes, the interaction tree and the routing of keys along the
focus path to the intents they stand for), the update step that carries intents out on the
interface, the project and the editor's settings, the workspace layouts and
panel metadata, key bindings and shortcut help, the command palette's matching and ranking,
the configuration dialog's lines, selection and edits, export profiles, the managed-block patching of exported
configuration files and the parser of export templates.

- `src/` — the library, written in Verus; every function carries a contract that Verus proves.
- `tests/` — tests of the library on concrete values.
- `app/` — the command-line front end: configuration file, Fluent translations, terminal keys.
