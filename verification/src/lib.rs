//! The decisions of a Lua embedding, kept apart from the foreign calls.
//!
//! A host that embeds the Lua virtual machine makes a handful of foreign
//! calls: it creates and closes a `lua_State`, hands `lua_load` a reader
//! callback that streams a chunk out of a buffered byte source, and runs the
//! compiled chunk with `lua_pcallk`. Everything the host decides around those
//! calls lives here, as verified functions from plain values to plain values:
//!
//! * [`error`]: the error kinds, and the table that maps a status code of the
//!   C API to one of them;
//! * [`reader`]: the bookkeeping of the reader callback, which lends the VM
//!   the source's buffer and marks it consumed at the next pull;
//! * [`state`]: one VM handle's side of loading a chunk.
//!
//! The host owns the `lua_State` pointer and the byte source. It performs each
//! foreign call and each read, and reports what came back.

pub mod error;
pub mod reader;
pub mod state;

pub use error::{map_lua_error, status_result, Error, Result};
pub use reader::{Bridge, Fill, Pull, Reader};
pub use state::{Chunk, State};
