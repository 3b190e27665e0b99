//! Log severities and their fixed uppercase display tokens.
use vstd::prelude::*;

verus! {

/// A log severity: a closed set of three levels. There is no ordering or
/// filtering semantics; a level only selects the token written into a
/// log line.
#[derive(Clone, Copy, PartialEq, Eq, Structural, Debug)]
pub enum LogLevel {
    Info,
    Warn,
    Error,
}

/// The display token of a level.
pub open spec fn spec_level_token(level: LogLevel) -> Seq<char> {
    match level {
        LogLevel::Info => "INFO"@,
        LogLevel::Warn => "WARN"@,
        LogLevel::Error => "ERROR"@,
    }
}

impl LogLevel {
    /// Renders the level as its uppercase token.
    pub fn token(&self) -> (r: &'static str)
        ensures
            r@ == spec_level_token(*self),
    {
        match self {
            LogLevel::Info => "INFO",
            LogLevel::Warn => "WARN",
            LogLevel::Error => "ERROR",
        }
    }
}

/// Token law: every level renders to exactly one of the three tokens —
/// the one picked by the level — and the three tokens are pairwise
/// distinct.
pub proof fn lemma_token_is_exactly_one(level: LogLevel)
    ensures
        spec_level_token(level) == "INFO"@ || spec_level_token(level) == "WARN"@
            || spec_level_token(level) == "ERROR"@,
        spec_level_token(level) == "INFO"@ <==> level == LogLevel::Info,
        spec_level_token(level) == "WARN"@ <==> level == LogLevel::Warn,
        spec_level_token(level) == "ERROR"@ <==> level == LogLevel::Error,
{
    reveal_strlit("INFO");
    reveal_strlit("WARN");
    reveal_strlit("ERROR");
    assert(("INFO"@)[0] != ("WARN"@)[0]);
    assert(("INFO"@).len() != ("ERROR"@).len());
    assert(("WARN"@).len() != ("ERROR"@).len());
}

} // verus!
