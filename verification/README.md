# chatty

A terminal chat: a server relays messages between clients.

- `src/` is the verified library: configuration defaults and loading
  decisions, messages and packets, the client's handshake state machine and
  key handling, the message-list layout, and the server's user setup,
  shutdown handling and per-tick relay.
- `app/` is the program around it (`chatty client`, `chatty server`):
  sockets, MessagePack and JSON encoding, configuration files, logging and
  the terminal window.
- `tests/` exercises the library.
