//! The decision logic of a content-addressed blob store and of a peer-to-peer
//! socket, as verified functions on plain values.
//!
//! * [`store`] holds the blob store: where data and outboards live, how the
//!   tables change, and what has to be done with the files.
//! * [`net`] holds the socket that picks a path for every packet, the relay
//!   client, and the endpoint bookkeeping around them.

pub mod buf;
pub mod io_kind;
pub mod key;
pub mod keymap;
pub mod net;
pub mod store;
pub mod vecs;
