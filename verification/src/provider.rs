//! What the core makes of its collaborators' failures, and the one
//! tolerance it has for an answer of the metadata provider that does not
//! parse.

use vstd::prelude::*;
use crate::text::{opt_text, replace_all, replaced};

verus! {

/// The classes of failure that a caller is told of.
#[derive(Clone, Copy, PartialEq, Eq, Debug, Structural)]
pub enum Failure {
    /// The request to the metadata provider failed.
    ProviderUnavailable,
    /// The answer of the metadata provider could not be parsed.
    ProviderMalformed,
    /// A chosen media asset could not be fetched.
    AssetUnavailable,
    /// The description file or the package descriptor could not be written.
    WriteFailed,
}

impl Failure {
    /// Whether the failure ends the packaging of the game. An asset that
    /// cannot be fetched does not: the package is made without it.
    pub open spec fn is_fatal(self) -> bool {
        self != Failure::AssetUnavailable
    }

    /// Whether the failure ends the packaging of the game.
    pub fn aborts(self) -> (r: bool)
        ensures
            r == self.is_fatal(),
    {
        match self {
            Failure::AssetUnavailable => false,
            _ => true,
        }
    }
}

/// A comma that stands right before a closing brace.
pub const TRAILING_COMMA: &'static str = ",}";

/// A closing brace.
pub const CLOSING_BRACE: &'static str = "}";

/// An answer without the commas that stand right before a closing brace.
pub open spec fn repaired(body: Seq<char>) -> Seq<char> {
    replaced(body, TRAILING_COMMA@, CLOSING_BRACE@)
}

/// What to parse after `failures` failed attempts on an answer: the
/// repaired answer after the first, and nothing more after that.
pub open spec fn retried(body: Seq<char>, failures: nat) -> Option<Seq<char>> {
    if failures == 1 {
        Some(repaired(body))
    } else {
        None
    }
}

/// Strips from an answer the commas that stand right before a closing
/// brace.
pub fn repair(body: &str) -> (r: String)
    ensures
        r@ == repaired(body@),
{
    replace_all(body, TRAILING_COMMA, CLOSING_BRACE)
}

/// What to parse after `failures` failed attempts on the answer `body`:
/// the repaired answer once, then nothing, and the answer counts as
/// malformed.
pub fn retry_after(body: &str, failures: u32) -> (r: Option<String>)
    ensures
        opt_text(r) == retried(body@, failures as nat),
{
    if failures == 1 {
        Some(repair(body))
    } else {
        None
    }
}

} // verus!
