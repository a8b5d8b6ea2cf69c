# slados

Attendance kiosks and the s2id server they ask, as a Verus library.

- `src/` — the verified library: the configuration's defaults and mode
  choice (`config`), decimal rendering (`decimal`), the echo service's steps
  (`dispatch`, with a connection that records its history), request
  addresses parsed by hyper (`uri`), the kiosk's steps and status reading (`kiosk`), the
  multicast group (`multicast`), and the s2id store with the server's answer
  to every request (`server`).
- `app/` — the program around it: command line, configuration file, HTTP
  client and server, sockets and threads.
- `tests/` — tests of the library.
