//! Decision logic of a durable, at-least-once journal shipper.
//!
//! The shipper drains a local journal in batches, uploads each batch to a
//! remote log stream under the stream's sequence token, and records the
//! journal cursor of a batch in a file once the upload is acknowledged, so
//! that a restart goes on where the last recorded batch ended.
//!
//! Nothing here touches a journal, a network or a file. The shipper hands
//! out actions and is told what came of them; see [`ship`].

pub mod clock;
pub mod config;
pub mod cursor;
pub mod history;
pub mod reader;
pub mod record;
pub mod ship;
pub mod sink;
pub mod world;
