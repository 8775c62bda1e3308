# shownotes

A two-pane terminal editor for a playlist of media files and web links: the
playlist on one side, the library of files found on disk on the other, with
fuzzy filtering, aliases, a which-key help popup, and actions that save the
playlist, open files, drive mpv and hand notes work to other programs.

## Layout

- `src/` is the library, verified with Verus. It holds the interface state and
  every decision: what a key does (`event`, `filter`, `rename`, `url_input`,
  `error_popup`, `which_key`, `global_key_handler`, `state`), what each action
  changes and which command it asks for (`action`, `commands`), how items are
  named, formatted, filtered and sorted (`domain`, `common`, `library_pane`,
  `playlist_pane`), how the help popup is laid out (`which_key_layout`), how rows
  are coloured and highlighted (`style`, `pane_view`), how paths are stored
  (`storage`), which alias a file shows and how stored rows become the playlist
  data of a workspace (`playlist_data`), which source URLs are kept (`sources`),
  what fuzzy search matches a file against (`note_search`) and which name a new
  link gets (`symlink`). `laws` states and proves properties that relate several
  operations.
- `app/` is the program around it: crossterm keys in, ratatui drawing out, and
  links created on disk. It declares what it needs from outside as two traits,
  `Services` (running commands, loading the playlist, listing the library,
  looking up sources) and `Keymap` (the configured key bindings), and follows the
  library's steps against them; it holds no implementation of either, and no
  `main`: the configuration, the databases, mpv and the launcher are not part of
  this crate.
- `tests/` runs the library on concrete cases.

Actions that need the outside world return a `Step`: done, a command to run
together with what to do with its outcome (`action::resume`), or a command to
start in the background (the library refresh). The application runs the command
and hands the outcome back. What the application still decides itself is small:
it reloads the library once the background analysis has ended, looks up key
bindings in the configuration, and reads the entries of a directory before the
library picks a free link name (`symlink::free_link_name`).
