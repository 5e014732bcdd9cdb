# tuisample-code

The decisions of a terminal chat client, verified with Verus, and the program around them.

- `src/cli.rs`: the command line, the help, and the last words of the program.
- `src/launch.rs`: the program from its command line to its last words, one task at a time.
- `src/freetier.rs`: enrolling a device in the free tier, and what is said about it.
- `src/workspace.rs`: the directory that the model's tools are confined to.
- `src/terminal.rs`: taking over the terminal and giving it back.
- `src/input.rs`: what a terminal event means.
- `src/session.rs`: the state that the event loop shares with the application.
- `src/event_loop.rs`: the event loop, one action at a time.
- `src/laws.rs`: what holds of the event loop as a whole.
- `src/frame.rs`: what a whole frame of the loop does once no background event is left.
- `src/config.rs`: the settings.

The library reads and writes nothing. It hands out one action at a time and is told what came
of it. `app/` performs the actions with crossterm, ratatui and tokio. The one trusted contract
is that of `holds_control` in `src/input.rs`: what crossterm says of the Control bit of a key's
modifiers.
