# plannotator-tui: the `last` command's picker, verified

`plannotator-tui last` opens an agent's recent conversation for review. This
crate holds its logic, proved with Verus:

- `src/message.rs`: messages, roles, document sources and their views.
- `src/last.rs`: the newest assistant message (what `--print` writes), and the
  transient documents made of one message or of a chronological conversation.
- `src/pick.rs`: the picker's state machine: opening candidates, moving the
  cursor, toggling selections, opening what is selected, mouse clicks.
- `src/draw.rs`: the picker's layout: its box, each candidate's label
  (`HH:MM  first line`), and the rows a click lands on.
- `src/text.rs`: white space and trimming, first non-blank line, decimal
  numbers, `HH:MM` out of a timestamp, and cutting text to a column width.
- `src/geometry.rs`: screen rectangles and the area inside a bordered block.

`app/` is the program around it: arguments, standard input, the terminal,
painting with ratatui and turning crossterm events into picker input.
