# fortuna

A JavaScript view engine for CouchDB 4.x that speaks the Ateles protocol,
running the JavaScript in V8.

- `src/` is the verified library: the Ateles messages (`message`), how a
  request becomes a worker command and what the worker does with each command
  (`js_server`), how an eval's value becomes its JSON answer (`js_engine`),
  how the HTTP service answers each request (`http_service`), and the
  requests of the benchmark client (`client`).
- `app/` is the program around it: hyper serving HTTP on 127.0.0.1:8444, the
  protobuf encoding of the messages, the worker thread and its channels, and
  V8. At startup it runs every file of the `js/` directory into the V8
  snapshot. `fortuna client` runs the benchmark against a running server.
