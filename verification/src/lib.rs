//! Distribution of fixed-size binary market-data records between processes.
//!
//! The crate holds the pure core of the transport: the fixed record layouts
//! and their byte codec, the capacity-bounded instrument routing table, the
//! connection retry protocol, the fan-out publish path and the record-framing
//! receive path, together with the feed-row conversions that produce records.
//! The sockets themselves live outside: the types here decide, step by step,
//! what a caller holding real connections must do.

pub mod model;

pub mod codec;

pub mod framing;

pub mod databento;

pub mod parse_char;

pub mod mbo;

pub mod mbp10;

pub mod retry;

pub mod pool;

pub mod routing;

pub mod mono;
