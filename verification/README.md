# wezterm_ai

The assistant of a terminal emulator: a prompt loop that can run commands, a panel that plans and
suggests, a wizard for the first run, a window for diagrams, painting, and wallets with an agent.

`src/` is the library. What it decides and computes is stated in contracts and proved with Verus:
the state machines of the prompt loop (`ai`), of the panel (`ai_panel`), of the wizard
(`first_run`), of making a local model server ready (`ollama`) and of painting a frame (`paint`);
the requests (`chat`, `code_mode`), the configuration file (`config_file`), the diagram scripts
(`mermaid_overlay`), the choice of a mode (`mode_selector`) and the wallets (`solana`, `keys`).
`text` and `text_lemmas` hold the text operations that all of them rest on. Functions named `law_`
prove what holds of several operations together.

`tests/` runs the library with the crates that it calls. `app/` connects it to terminals, windows,
processes, the network and the keyring; it is ordinary Rust.
