# hqm_server

The rules of a hockey game server, in Rust that Verus verifies.

- `src/` is the library. A server is a plain value; every function states, over a
  mathematical view of that value, what the server is afterwards and what is left to
  do. `src/laws/` holds what follows for the server as a whole.
- `app/` puts the library on the network: the socket, the clock, files and uploads. The
  rink, the rules of the game and the form of packets are plugged into it as traits.
- `tests/` runs the library on examples.

## The library

| module | what it is about |
| --- | --- |
| `text`, `game`, `net` | numbers and chat commands, plain values of a game, addresses and bans |
| `message`, `player` | messages and who they are for, players and their slots |
| `server` | the state of a server and what always holds of it |
| `session` | joining, leaving, teams, handing out messages, silence |
| `lookup`, `commands` | finding players by name, chat lines and commands |
| `protocol` | messages from clients |
| `wire` | what clients are told, field by field |
| `replay` | recording play, showing it again, new games |
| `tick` | one tick, step by step |
| `master` | announcing the server |
| `matches`, `buffer` | the collections that come from `smallvec` and `bytes` |
