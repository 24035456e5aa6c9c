//! Executable shell of the contributions tracker service.
//!
//! The crate covers the dispatch layer of the service: mapping a verbosity
//! count to a logging severity and building the logging pipeline, producing
//! the service's API specification document, selecting between the serve and
//! specification-emitting modes, and turning the outcome of a run into a
//! process exit code and a warning line.

pub mod dispatch;
pub mod errors;
pub mod logging;
pub mod openapi;
pub mod report;
pub mod text;
