//! Log lines that say who speaks.
//!
//! Every context of the filter has an identifier. A log line is the
//! identifier, a colon, a blank and the message. Handing the line to the host
//! is left to the caller.

use vstd::prelude::*;

verus! {

/// The level of a log line, from the least to the most severe.
#[derive(Debug, Copy, Clone, PartialEq, Eq, PartialOrd, Ord)]
pub enum LogLevel {
    Trace,
    Debug,
    Info,
    Warn,
    Error,
    Critical,
}

impl Default for LogLevel {
    fn default() -> (level: Self)
        ensures
            level == LogLevel::Info,
    {
        Self::Info
    }
}

/// Something that can say who it is.
pub trait IdentLogger {
    /// The identifier, as contracts see it.
    spec fn ident_view(&self) -> Seq<char>;

    fn ident(&self) -> (ident: &str)
        ensures
            ident@ == self.ident_view(),
    ;
}

impl<'a> IdentLogger for &'a str {
    open spec fn ident_view(&self) -> Seq<char> {
        (*self)@
    }

    fn ident(&self) -> (ident: &str) {
        self
    }
}

/// The line that a context with the identifier `ident` logs for `message`.
pub open spec fn log_line(ident: Seq<char>, message: Seq<char>) -> Seq<char> {
    ident + ": "@ + message
}

/// Makes the log line of `ctx` for `message`. The level is handed on as it
/// came.
pub fn with_ident<L: IdentLogger + ?Sized>(ctx: &L, message: &str, level: LogLevel) -> (record: (
    LogLevel,
    String,
))
    ensures
        record.0 == level,
        record.1@ == log_line(ctx.ident_view(), message@),
{
    let mut line = String::from_str(ctx.ident());
    line.append(": ");
    line.append(message);
    (level, line)
}

} // verus!
