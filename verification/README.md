# simplife

The shared rules of the simplife services (an account service and an agenda
service), written in Verus and verified.

- `src/` is the verified library: cache keys and Redis commands, SQL
  statements and the values they bind, reply bodies and error replies, the
  login, session and family lookups, the login check, agenda permissions,
  listings and the agenda transaction. Every step that waits on Redis, MySQL
  or another service is a function from a state and an answer to the next
  state and the next action, with its contract; the laws of the library stand
  beside them as proof functions.
- `tests/` runs the library on concrete values.
- `app/` is the program around it: configuration, HTTP and gRPC servers,
  tracing, and the calls to Redis and MySQL that perform the actions the
  library decides.
