# create_rust_plugin

The logic of a Zellij plugin that sets up a new Rust plugin project: the
user types a name, and the plugin clones a template project into a folder of
that name, renames the template's package, and opens a development tab on it.
Where the folder already holds a project, it opens the tab at once.

`src/` is the library, verified with Verus:

- `plugin` — the plugin's state and what each event does to it (`State::update`,
  `State::pipe`, `State::load`, `State::render`), with the laws that tie them together;
- `sequential_commands_to_run` — the commands run one after another, each in a
  pane of its own, restarted from the first after a failure;
- `filepicker_requests` — questions to the host's file picker and their answers;
- `workspace_layout` — the KDL layout of the development tab;
- `screen`, `keys`, `host`, `context`, `text` — what is drawn, key presses, the
  requests to the host, event contexts, and small text and path utilities.

The library never talks to the host itself: each step gives back the requests
to perform as plain values. `app/main.rs` is the plugin as Zellij loads it: it
turns the host's events into the library's, performs the requests and draws.
