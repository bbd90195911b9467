# voxtype

Voice-to-text dictation for Linux: press a hotkey, speak, press it again, and
the words are pasted into the focused application.

The library in `src/` makes the decisions and proves them with Verus. It does
no input or output of its own: it says which command to run, which file to read
or which request to send, takes the report, and says what is next. The program
in `app/` performs those steps.

| Module | What it decides |
|---|---|
| `text` | the vocabulary of the contracts, and string operations |
| `json`, `toml_file` | reading documents, writing configuration files |
| `calendar` | log timestamps |
| `command` | one external command under a time limit |
| `environment` | display server, compositor, audio system, tools |
| `config` | settings, and where API keys come from |
| `providers` | requests to the speech-to-text providers, and their replies |
| `ranking`, `stats` | usage records, and who is tried first |
| `fallback` | the chain of providers |
| `focus`, `x11` | which application has the focus |
| `clipboard`, `paste`, `inject` | how text gets into it |
| `recording`, `daemon` | the recorder, the toggle, the life of the daemon |
| `cli`, `configure` | the command line |

Some of what is proved, beside the contract of each function:

- The text is on the clipboard before any key is pressed, and whenever pasting
  is reported as done.
- Every step of an injection has a time limit, and all of them together stay
  below a fixed bound, whatever the tools do.
- A known application gets exactly one paste shortcut, an editor none, and a
  key that was delivered is not pressed again.
- The first provider that hears something wins; each is called once at most,
  the one with the best record first.
- The PID file is written only after the signal handlers are installed.
- A configuration that was saved is loaded as it was.
