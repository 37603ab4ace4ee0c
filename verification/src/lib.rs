//! A kcat-style bridge between a terminal and a Pulsar broker, with its
//! decision logic verified: keyed line parsing, message rendering, the
//! consume-side termination state machine, and the produce-side pipeline
//! bookkeeping. Broker I/O itself lives outside this library.

pub mod cli_options;
pub mod error;
pub mod formatter;
pub mod list;
pub mod parser;
pub mod pipeline;
pub mod poller;
pub mod text;
