//! Container-engine network records as an Arrow IPC stream.
//!
//! The library turns an ordered list of network descriptor records into one
//! columnar batch of nine nullable columns and encodes that batch as a
//! self-describing Arrow IPC stream: a schema message, one record batch
//! message and the end-of-stream marker.
//!
//! The columnar arrays, the batch and the stream encoder are Arrow's. This
//! library calls them through small trusted functions whose contracts are
//! stated over plain mathematical models; everything around those calls is
//! verified.

pub mod batch;
pub mod column;
pub mod error;
pub mod laws;
pub mod record;
pub mod schema;
pub mod writer;

pub use batch::networks2batch;
pub use batch::Batch;
pub use error::Error;
pub use record::within_column_limit;
pub use record::Network;
pub use schema::network_schema;
pub use schema::Column;
pub use schema::ColumnType;
pub use writer::batch2writer;
pub use writer::networks2writer;
pub use writer::networks_to_writer;
pub use writer::IpcStreamWriter;
