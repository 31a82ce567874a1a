# cardmate

Chess with cards, verified with Verus.

`src/` is the library, every function of it proved against its contract:

- `board/`: the board, move generation for every piece and modifier, move
  legality, check and mate, applying a move, and what each player is shown
  under fog.
- `cards/`: the thirty cards, when each is playable, and what each does to the
  board.
- `game_loop/`: a game in progress: deck, hands, drawing and discarding,
  playing cards, the players' clocks, and the decisions of the loop that
  watches a game.
- `commands.rs`: what a player's command does to the game and what is
  answered.
- `lobby.rs`, `session.rs`: the two seats of a game and the decisions of a
  player's socket session (rate limit, heartbeat, start, leaving).
- `gateway.rs`: the gateway's decisions: header forwarding, routing, access
  tokens, rate limits and permissions, cookies, the error answers, the metrics
  port search.
- `registry.rs`, `lifecycle.rs`, `notification.rs`: instance records, game
  creation and abandon, notification routing.

Calls into outside crates (`rand`, `cookie`, `uuid`, `jsonwebtoken`) and into
the parts of std that Verus does not specify stand behind small trusted
functions, each with a doc comment that says what its contract claims.

`app/` is the chess service around the library: sockets, Redis, Postgres and
the tasks that run games. `tests/` runs the library on concrete games.
