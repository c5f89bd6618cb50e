# Teleemix

A Telegram bot that requests music downloads from a deemix server: by Deezer link, Spotify link,
search or voice note. After a playlist is downloaded it can be rebuilt on Plex, Jellyfin or
Navidrome.

The library under `src/` holds everything the bot decides, verified with Verus. It does no input or
output: it says which HTTP requests to send and which messages to show, and takes back what came of
them. The program under `app/` talks to Telegram, to the network and to the file system.

| Module | What it holds |
|---|---|
| `bot` | what the bot knows, and its reactions to commands, messages and buttons |
| `turn` | conversations: the acts of each turn, and the outside work it waits for |
| `jobs` | playlist jobs, step by step, from the downloads to the rebuilt playlist |
| `keyboard` | menus, settings and inline buttons, and what pressing them means |
| `users` | the users and their settings |
| `config`, `env` | the configuration, out of environment variables |
| `deemix` | requests to deemix and what its replies mean |
| `spotify`, `voice` | Spotify links, transcription, song recognition, Odesli |
| `mediaserver` | Plex, Jellyfin and Navidrome: scanning, finding tracks, playlists |
| `links` | the patterns of links, and the ARL in the environment file |
| `http`, `json` | requests, replies and documents as plain data |
| `text` | text operations |

The dependency `takecell` is one of teloxide's. It is named here to hold it at 0.1.1, because 0.1.2
asks for a newer compiler than this crate's `rust-version`.

Each module states what its functions do in contracts over spec functions, and ends with the laws
that hold of them together. `tests/` runs the library on concrete values.
