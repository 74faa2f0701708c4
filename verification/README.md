# study_server

A websocket game server built from actors: a session manager (one session
per user), a room manager, rooms (a global room every user joins, and game
rooms for matches), a matchmaker, and one actor per client connection.

- `src/` is the verified library: the wire framing (`packet`), error
  reporting (`error`), the keyed store the actors keep their state in
  (`registry`), and the decision logic of every actor (`session_manager`,
  `room_manager`, `rooms`, `matchmaker`, `client`). Each actor's logic is a
  function from its state and an incoming message to its next state and the
  actions to carry out, with a contract that states both.
- `app/` is the program: tokio channels and tasks, the axum websocket
  endpoint and the redis ticket store. It runs each actor's loop, hands the
  messages to the library and carries out the actions it returns.
