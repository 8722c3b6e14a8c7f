# Download manager

The core of a desktop download manager that drives two command line tools,
aria2 for files and yt-dlp for video platforms, verified with Verus.

- `src/` is the library. It starts and stops nothing itself: it decides which
  engine takes a URL, builds the command lines, reads what the tools write,
  keeps track of a run, picks the file that a run produced, and says what the
  user interface is told. The contracts say what comes back; where the clock
  decides, they say what holds whatever it shows.
- `app/` is the Tauri application around it: windows and commands, child
  processes, files, and the numbers that the tools write as decimal fractions.
- `tests/` runs the library on concrete values.

## Modules

| module | what it is about |
| --- | --- |
| `session` | the download that runs or is paused |
| `download`, `attempt` | a download through aria2, and one run of it |
| `aria2`, `progress`, `classifier`, `strategy` | aria2's output and command line |
| `yt_command`, `yt_dlp` | yt-dlp's command line and messages |
| `yt_output`, `yt_run` | yt-dlp's output, and one run of it |
| `files`, `output` | the file that a run left, and lines out of bytes |
| `platform`, `resolve`, `ffmpeg` | where the tools are, and whether they work |
| `events` | what the user interface is told |
| `text`, `numbers`, `clock`, `regexes`, `unicode` | the ground that the others stand on |

The last five hold the few functions that are trusted rather than proved:
regular expressions, Unicode case mapping, lossy decoding, appending a character,
the system clock, and (in `platform`) joining a path.
