//! The substitution strategy: what is written in place of a match.

use crate::text::str_eq;
use vstd::prelude::*;

verus! {

/// The recipe for replacing matched text.
#[derive(Debug, Clone, Copy, PartialEq, Eq, Structural)]
pub enum Redactor {
    /// Every match, whatever it holds, becomes the fixed marker `[REDACTED]`.
    Full,
}

/// A redactor name that the library does not know.
#[derive(Debug, Clone, Copy, PartialEq, Eq, Structural)]
pub struct UnknownRedactor;

impl UnknownRedactor {
    /// The message for this error.
    pub fn message(&self) -> (s: &'static str)
        ensures
            s@ == "unknown redactor"@,
    {
        "unknown redactor"
    }
}

impl Redactor {
    /// The text written in place of each match.
    pub open spec fn marker(self) -> Seq<char> {
        match self {
            Redactor::Full => "[REDACTED]"@,
        }
    }

    /// The redactor that the name `s` stands for, if any.
    pub open spec fn parse(s: Seq<char>) -> Option<Redactor> {
        if s == "full"@ {
            Some(Redactor::Full)
        } else {
            None
        }
    }

    /// The replacement text of this strategy.
    pub fn pattern(&self) -> (s: &'static str)
        ensures
            s@ == self.marker(),
    {
        match self {
            Redactor::Full => "[REDACTED]",
        }
    }

    /// Reads a redactor from its name. Only `"full"` is known.
    pub fn from_str(s: &str) -> (r: Result<Redactor, UnknownRedactor>)
        ensures
            r == match Redactor::parse(s@) {
                Some(redactor) => Ok::<Redactor, UnknownRedactor>(redactor),
                None => Err(UnknownRedactor),
            },
    {
        if str_eq(s, "full") {
            Ok(Redactor::Full)
        } else {
            Err(UnknownRedactor)
        }
    }
}

impl std::str::FromStr for Redactor {
    type Err = UnknownRedactor;

    /// Reads a redactor from its name, as [`Redactor::from_str`] does.
    fn from_str(s: &str) -> (r: Result<Redactor, UnknownRedactor>)
        ensures
            r == match Redactor::parse(s@) {
                Some(redactor) => Ok::<Redactor, UnknownRedactor>(redactor),
                None => Err(UnknownRedactor),
            },
    {
        Redactor::from_str(s)
    }
}

impl Default for Redactor {
    fn default() -> (r: Redactor)
        ensures
            r == Redactor::Full,
    {
        Redactor::Full
    }
}

} // verus!
