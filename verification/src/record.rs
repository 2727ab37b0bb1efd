use vstd::prelude::*;

verus! {

/// One normalized reportable event: a free-form level tag, a required
/// (possibly empty) message, and an optional stack trace. An absent stack
/// means "not available", not "empty". A record is immutable once built and
/// carries no identity beyond its fields — no record id, no timestamp.
#[derive(Debug)]
pub struct LogRecord {
    pub level: String,
    pub message: String,
    pub stack_trace: Option<String>,
}

/// The mathematical content of a record: level, message and optional stack,
/// each as a character sequence. Records with equal views are the same event
/// as far as the transport collaborator is concerned.
pub open spec fn record_view(r: LogRecord) -> (Seq<char>, Seq<char>, Option<Seq<char>>) {
    (r.level@, r.message@, r.stack_trace.deep_view())
}

/// The record holds exactly this level, message and stack.
pub open spec fn is_record(
    r: LogRecord,
    level: Seq<char>,
    message: Seq<char>,
    stack: Option<Seq<char>>,
) -> bool {
    record_view(r) == (level, message, stack)
}

impl LogRecord {
    /// Builds a record directly from the three fields, with no validation
    /// beyond wrapping: the level is free-form at this layer.
    pub fn new(level: String, message: String, stack_trace: Option<String>) -> (r: LogRecord)
        ensures
            is_record(r, level@, message@, stack_trace.deep_view()),
    {
        LogRecord { level, message, stack_trace }
    }
}

} // verus!
