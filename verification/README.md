# GPTVoice

GPTVoice brings a ChatGPT Voice conversation into a Discord voice channel. It drives the normal
ChatGPT website in a dedicated browser per Discord server and relays the audio in both directions.

## Layout

- `src/` is the library: everything that GPTVoice decides and computes. It is written in Verus.
  Every function states what it returns or changes, and public proof functions state what holds
  across functions: audio comes out in the order in which it came in, a saved setup is the setup
  that is loaded, a token is never shown, every start of a browser ends.
- `app/` is the desktop app around the library: the window, files, sockets, processes, Discord's
  gateway and the scripts that run in the page. It performs what the library asks for and hands
  back what came of it.
- `tests/` holds examples that run.

## The library

| Module | What it is about |
| --- | --- |
| `text`, `json`, `ieee` | characters, JSON values and floating-point bit patterns |
| `queue`, `signal`, `latency`, `pcm`, `mix`, `transport` | the audio relay |
| `config`, `startup`, `release` | the setup, what is started from it, and updates |
| `flow`, `control` | the words between a session and its surroundings, and the browser's control endpoint |
| `browser`, `launch`, `threads`, `voice`, `settings`, `runtime`, `visit` | the dedicated browsers |
| `discord`, `panel` | the bot, its commands and the panel that members use |

Whatever takes time happens outside. A flow of the library hands out one action, gets the reply to
it, and goes on until it finishes; moments are nanoseconds on one clock that the app keeps.
Volumes and measurements cross the border as bit patterns; the arithmetic on them is the app's.
