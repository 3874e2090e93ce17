# mado

mado (窓) shows a dialog window from the command line: an info, warning
or error message, or a text-info window whose content is fixed, read from
standard input as it arrives, or refreshed from a watched file. Exit codes
follow Zenity: 0 for OK, 1 for Cancel, 5 for a timeout.

`src/` is the verified library:

- `exit` — outcomes and their exit codes.
- `cli` — the options as the dialog logic reads them, and which dialog they select.
- `dialog` — what to fetch before the window opens, which view to build,
  window defaults, how a frame ends the dialog, the exit code; `message`
  and `text_info` hold the two dialog bodies.
- `source` — turning stdin reads into text chunks without splitting a
  UTF-8 sequence, and deciding when a watched file changed.
- `theme` — colors and their syntax, the default tokens, the theme-file
  model, merging a theme file, the resolution order and font stacks.
- `text` — trimming, digits and integer parsing, splitting.

Sizes in the tokens are floating-point values that the library only moves;
their type is a parameter that the program sets to `f32`.

`app/` is the program: argument parsing (clap), reading `theme.toml`
(toml, serde, dirs), the stdin and file-watching threads, system fonts
(fontdb) and drawing the window with eframe/egui.
