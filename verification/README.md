# pyesb-amqp

The verified core of an AMQP 1.0 server for Python: every message a peer
sends is handed to a user callback, and is accepted when the callback returns
`True`, rejected (so that the peer delivers it again) otherwise.

- `src/` is the library, verified with Verus: the conversion of a received
  delivery into the message given to the callback (`conversion`, `message`),
  the verdict of the callback worker (`callback`), the decisions of the
  listener, sessions and receivers (`runtime`), the server's life cycle
  (`server`), and number and hex rendering (`text`).
- `app/` is the Python extension module built on it with pyo3, tokio and
  fe2o3-amqp: sockets, threads, the interpreter, and the conversion of wire
  types into the library's plain values.
- `tests/` runs the library on concrete values.

The callback is called with the message alone, as the crate root of the
Python extension this library serves does and as its user documentation
shows; a variant that also passes the link's target address as a channel name
is not followed.
