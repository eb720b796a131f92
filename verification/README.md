# middleware

A service between ECR machines and POS devices: an ECR sends a message over
TCP, the middleware publishes it on NATS JetStream under the subject of the
ECR's terminal, and hands the POS reply for that terminal back to the ECR.

- `src/` is the verified library (Verus): the read buffer of a connection,
  the terminal-id extraction, the per-connection state machine, the settings
  and their defaults, and the stream and consumer derived from them.
- `app/` is the program around it: command line, sockets, the NATS client,
  the async loops that perform the library's actions.
- `tests/` exercises the library on concrete inputs.
