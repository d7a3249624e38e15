# helix_ios

The verified core of an iOS embedding of the Helix editor, where the editor
runs inside a host terminal emulator and talks to it through two pipes.

`src/` is the library, written in Verus; every function there carries a
contract that Verus proves:

- `backend` — the terminal backend: which escape sequences it writes to take
  and give back the terminal, switch mouse capture and synchronized output,
  move and shape the cursor, and draw cells sending only the style that
  changes.
- `style` — cell colors, underlines and modifiers, and the SGR codes a style
  change sends (`diff_modifiers`).
- `sequences` — the control sequences, formatted by the `termina` crate.
- `crlf` — the lone-`\n` to `\r\n` conversion used on pipe output.
- `text` — decimal digits, written and read.
- `launch` — the error codes and command lines of editor creation requests,
  and the process-wide runtime directory.
- `grammars` — the statically linked grammars and the notice printed instead
  of fetching or building them.
- `input` — the decisions of the input-pipe reader, and the bytes it hands
  to termina's escape-sequence parser.
- `git_cli` — option handling of the `gix` command.

`app/` is ordinary Rust around it: the C interface, the input reader thread,
the buffered pipe writer and the `gix` command's dispatch to gitoxide.
The editor proper lives in the editor's own crates, which install their entry
point with `app::ffi::set_editor`.
