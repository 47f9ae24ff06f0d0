# iroh_core

The decisions of a blob store and of a peer-to-peer socket, written in Rust and
proved with Verus.

- `src/store`: entries and where their data is kept, the tables of the database,
  the requests to the store, importing, completing, exporting and deleting blobs,
  temp tags.
- `src/net`: addresses, the packets of a batch and of a relay message, sending
  and receiving, discovery messages, direct addresses, endpoint updates, the
  actor of the socket and the relay client.
- `src/buf.rs`, `src/io_kind.rs`, `src/key.rs`, `src/keymap.rs`, `src/vecs.rs`:
  byte buffers, classes of errors, node identities, a small map and a helper for
  lists.
- `app`: files, the database, sockets, channels and tasks around the library.
- `tests`: the library on concrete values.

A function that would wait or do I/O is split. The library says what to do next;
the caller does it and comes back with what came of it. Laws that relate several
functions are public proof functions beside the functions that they speak of,
those of the store as a whole in `src/store/laws.rs`.
