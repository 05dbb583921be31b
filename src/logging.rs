//! Forwarding of log lines to a callback that the embedding application
//! installs.

use vstd::prelude::*;

verus! {

/// Where log lines go: the installed callback, if any.
pub struct LogSink<F> {
    pub callback: Option<F>,
}

impl<F: Fn(&str, &str)> LogSink<F> {
    /// A sink with no callback: lines are dropped.
    pub fn new() -> (r: Self)
        ensures
            r.callback is None,
    {
        LogSink { callback: None }
    }
}

/// Installs `callback`, replacing any earlier one.
pub fn set_log_callback<F: Fn(&str, &str)>(sink: &mut LogSink<F>, callback: F)
    ensures
        final(sink).callback == Some(callback),
{
    sink.callback = Some(callback);
}

/// Hands `level` and `message` to the installed callback; without one the
/// line is dropped.
pub fn log<F: Fn(&str, &str)>(sink: &LogSink<F>, level: &str, message: &str)
    requires
        sink.callback matches Some(f) ==> f.requires((level, message)),
    ensures
        sink.callback matches Some(f) ==> f.ensures((level, message), ()),
{
    if let Some(f) = &sink.callback {
        f(level, message);
    }
}

} // verus!
