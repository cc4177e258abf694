# friday

A terminal chat client for a streaming language-model service, with its state
and rules written in Verus and proved against their contracts.

- `src/` — the verified library: the client's state (`app`), how keys and
  stream events change it, the command palette, the reading of
  server-sent-event chunks (`sse`), the request and reply of the model service
  (`provider`), the relay of a stream (`relay`), and what the screen shows
  (`ui`). `laws` states properties that span several operations.
- `app/` — the program around it: the terminal, the draw/event loop, the HTTP
  client and the channel on which stream events arrive.
- `tests/` — tests of the library on concrete values.
