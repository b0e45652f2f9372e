use vstd::prelude::*;
use vstd::string::StringExecFns;

verus! {

/// The severity of one log line.
#[derive(Clone, Copy, PartialEq, Eq, Structural, Debug)]
pub enum LogLevel {
    Info,
    Success,
    Error,
    Warning,
}

/// The bracketed tag that marks each level in the log.
pub open spec fn spec_level_prefix(level: LogLevel) -> Seq<char> {
    match level {
        LogLevel::Info => "[INFO]"@,
        LogLevel::Success => "[SUCCESS]"@,
        LogLevel::Error => "[ERROR]"@,
        LogLevel::Warning => "[WARN]"@,
    }
}

impl LogLevel {
    /// The tag written in front of a message of this level.
    pub fn to_prefix(&self) -> (r: &'static str)
        ensures
            r@ == spec_level_prefix(*self),
    {
        match self {
            LogLevel::Info => "[INFO]",
            LogLevel::Success => "[SUCCESS]",
            LogLevel::Error => "[ERROR]",
            LogLevel::Warning => "[WARN]",
        }
    }
}

/// The shape of every line in the log: a bracketed timestamp, the level's
/// tag, and the message, blank-separated.
pub open spec fn spec_log_line(timestamp: Seq<char>, level: LogLevel, message: Seq<char>) -> Seq<
    char,
> {
    "["@ + timestamp + "] "@ + spec_level_prefix(level) + " "@ + message
}

/// Renders one log line from an already-formatted timestamp, a level and
/// a message.
pub fn build_log_line(timestamp: &str, level: LogLevel, message: &str) -> (r: String)
    ensures
        r@ == spec_log_line(timestamp@, level, message@),
{
    let mut out = String::from_str("[");
    out.append(timestamp);
    out.append("] ");
    out.append(level.to_prefix());
    out.append(" ");
    out.append(message);
    out
}

} // verus!
