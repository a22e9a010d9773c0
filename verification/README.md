# endless_slack

A bridge that runs coding-agent conversations inside Slack threads. A mention of the app
starts a conversation in a thread; replies in the thread go on with it. `/model <name>`,
`/status` and `/reset` are commands to the bridge itself.

- `src/` is the library: what the bridge decides and computes, proved with Verus against
  its contracts. It reads nothing but the clock and sends nothing.
- `tests/` runs the library on concrete values.
- `app/` is the program: the HTTP server, files, the environment, posting to Slack, and the
  provider, runtime and tool crates of the workspace.

| module | what it decides |
| --- | --- |
| `config`, `names` | the settings that the environment gives |
| `signature`, `events` | whether a request is from Slack, and whether an event is answered |
| `prompt`, `thread` | what the prompt is, and what is done about it |
| `steps` | in which steps it is done, and where it stops |
| `paths` | where the files of a thread stand |
| `tools`, `turn`, `conversation` | what a turn is run with, and what a provider is asked |
| `response` | what a provider's answer comes to |
| `reply`, `post` | what is written into a thread |
| `clock` | the time and the date |
| `json`, `text` | JSON values and text |

The state directory and the working directory are texts in UTF-8, with `/` between the
parts of a path. The model that a thread falls back on is set when the program is built,
in `ENDLESS_FALLBACK_MODEL`, or in the environment, in `ENDLESS_DEFAULT_MODEL`.
