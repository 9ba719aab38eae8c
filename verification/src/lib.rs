//! Client-side core of a binding to a column-oriented in-memory database:
//! the connection state machine, the single-owner wrapper around foreign
//! values, the gating half of the wire codec, and the error taxonomy.
//!
//! The native primitives of the database (connect, request, close,
//! serialize, deserialize, stream validation) live behind an
//! interprocess-communication boundary and are driven by an unverified
//! shell. Every decision this library makes is a function from the state it
//! holds and the event the foreign layer reported — a return code, a reply
//! pointer, a validity verdict — to the next state and a typed result, so
//! the sentinel conventions of the wire protocol are pinned down here and
//! no sentinel leaks past this crate.

pub mod err;
pub mod kval;
pub mod text;
pub mod conn;
pub mod codec;

pub use err::KErr;
pub use err::KError;
pub use err::KResult;
pub use kval::KOwned;
pub use kval::KRaw;
pub use conn::Handle;
pub use codec::deserialize;
pub use codec::serialize;
