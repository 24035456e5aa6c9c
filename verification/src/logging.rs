//! Verbosity handling and construction of the logging pipeline.

use vstd::prelude::*;
use crate::errors::Error;

verus! {

/// The severity threshold of the logging pipeline, ordered from the least
/// verbose (`Warning`) to the most verbose (`Trace`).
pub enum Severity {
    Warning,
    Info,
    Debug,
    Trace,
}

/// Position of a severity in the ordering `Warning < Info < Debug < Trace`.
pub open spec fn severity_rank(s: Severity) -> nat {
    match s {
        Severity::Warning => 0,
        Severity::Info => 1,
        Severity::Debug => 2,
        Severity::Trace => 3,
    }
}

/// The severity that a verbosity count selects, for counts up to three.
pub open spec fn verbosity_severity(verbose: u8) -> Severity {
    if verbose == 0 {
        Severity::Warning
    } else if verbose == 1 {
        Severity::Info
    } else if verbose == 2 {
        Severity::Debug
    } else {
        Severity::Trace
    }
}

/// The message reported when the verbosity count is out of range.
pub open spec fn verbosity_error_message() -> Seq<char> {
    "-v is only allowed up to 3 times."@
}

/// Map a verbosity count to the severity threshold it selects.
///
/// Counts `0..=3` select `Warning`, `Info`, `Debug` and `Trace` in that
/// order; any higher count is a configuration error.
pub fn severity_for_verbosity(verbose: u8) -> (r: Result<Severity, Error>)
    ensures
        verbose <= 3 ==> (r matches Ok(s) && s == verbosity_severity(verbose)
            && severity_rank(s) == verbose),
        verbose > 3 ==> (r matches Err(e) && e matches Error::Config { message }
            && message@ == verbosity_error_message()),
{
    match verbose {
        0 => Ok(Severity::Warning),
        1 => Ok(Severity::Info),
        2 => Ok(Severity::Debug),
        3 => Ok(Severity::Trace),
        _ => Err(Error::Config {
            message: "-v is only allowed up to 3 times.".to_owned(),
        }),
    }
}

/// A larger verbosity count never selects a lower severity threshold: the
/// selected thresholds follow the ordering `Warning < Info < Debug < Trace`.
pub proof fn lemma_severity_monotonic(v1: u8, v2: u8)
    requires
        v1 <= v2 <= 3,
    ensures
        severity_rank(verbosity_severity(v1)) <= severity_rank(verbosity_severity(v2)),
{
}

/// The opaque, shareable handle to a configured logging pipeline.
///
/// Holds a `slog::Logger`; the type parameters of that type defeat a direct
/// declaration, so the handle hides it whole. The field is public so that
/// the unverified rim of the program can pass the logger to collaborators.
#[verifier::external_body]
pub struct LoggerHandle {
    pub logger: slog::Logger,
}

/// Relies on `slog_term::TermDecorator` and `slog_term::FullFormat` to build
/// the formatting stages, on `slog_async::Async` for the buffering stage with
/// a queue of 256 pending records (a producer hitting a full queue blocks
/// until space frees, so no record is silently lost), on
/// `slog::Drain::filter_level` for the severity filter, and on
/// `slog::Logger::root` to produce the handle. None of these constructors
/// fails; nothing further is claimed of the opaque handle.
#[verifier::external_body]
fn build_logger(severity: &Severity) -> LoggerHandle {
    let level = match severity {
        Severity::Warning => slog::Level::Warning,
        Severity::Info => slog::Level::Info,
        Severity::Debug => slog::Level::Debug,
        Severity::Trace => slog::Level::Trace,
    };
    let decorator = slog_term::TermDecorator::new().build();
    let drain = slog::Drain::fuse(slog_term::FullFormat::new(decorator).build());
    let drain = slog_async::Async::new(drain)
        .chan_size(256)
        .overflow_strategy(slog_async::OverflowStrategy::Block)
        .build();
    let drain = slog::Drain::fuse(slog::Drain::filter_level(drain, level));
    LoggerHandle { logger: slog::Logger::root(drain, slog::OwnedKV(())) }
}

/// Initialize logging for a run.
///
/// Maps the verbosity count to a severity threshold and builds the logging
/// pipeline filtered at that threshold: a terminal decorator, a full-format
/// renderer, and an asynchronous buffer of 256 pending records drained by a
/// background consumer. Counts above three are rejected.
pub fn init(verbose: u8) -> (r: Result<LoggerHandle, Error>)
    ensures
        verbose <= 3 ==> r is Ok,
        verbose > 3 ==> (r matches Err(e) && e matches Error::Config { message }
            && message@ == verbosity_error_message()),
{
    match severity_for_verbosity(verbose) {
        Ok(severity) => Ok(build_logger(&severity)),
        Err(e) => Err(e),
    }
}

} // verus!
