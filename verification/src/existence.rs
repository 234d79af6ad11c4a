//! What the existence check reports.
//!
//! The check guards a save: an entry already present at the target is the
//! exceptional case, in which the front-end asks before it overwrites. It is
//! therefore reported as `Err`, and every other answer as `Ok`. Both carry a
//! text for display.
//!
//! The look-up itself is the caller's: it asks the platform about the path,
//! passed on as it was given, and hands the answer over as a [`Lookup`].

use vstd::prelude::*;

verus! {

/// Text reported when an entry is present at the path.
pub const PRESENT_TEXT: &'static str = "the file already exists.";

/// Text reported when no entry was found at the path.
pub const ABSENT_TEXT: &'static str = "the file does not exist.";

/// What the platform answered when asked whether any entry, file or
/// directory, is present at a path.
#[derive(Clone, Copy, Debug, PartialEq, Eq, Structural)]
pub enum Lookup {
    /// An entry is present.
    Present,
    /// No entry is present.
    Absent,
    /// The platform could not tell, for want of permission or for an I/O
    /// fault.
    Failed,
}

/// The outcome owed for an answer: `Err` with [`PRESENT_TEXT`] where an entry
/// is present, `Ok` with [`ABSENT_TEXT`] otherwise.
///
/// A look-up that failed is thus reported like a free path. The two are not
/// told apart.
pub open spec fn outcome(lookup: Lookup) -> Result<Seq<char>, Seq<char>> {
    if lookup is Present {
        Err(PRESENT_TEXT@)
    } else {
        Ok(ABSENT_TEXT@)
    }
}

/// A reported outcome as its tag and the characters of its text.
pub open spec fn reported(r: Result<String, String>) -> Result<Seq<char>, Seq<char>> {
    match r {
        Ok(text) => Ok(text@),
        Err(text) => Err(text@),
    }
}

/// Reports the answer that a look-up of a path gave.
pub fn existence_outcome(lookup: Lookup) -> (r: Result<String, String>)
    ensures
        reported(r) == outcome(lookup),
        r is Err <==> lookup is Present,
{
    match lookup {
        Lookup::Present => Err(PRESENT_TEXT.to_owned()),
        Lookup::Absent | Lookup::Failed => Ok(ABSENT_TEXT.to_owned()),
    }
}

/// Repeating the check while the answer is unchanged repeats the outcome.
pub proof fn lemma_unchanged_answer_repeats(first: Lookup, second: Lookup)
    requires
        first == second,
    ensures
        outcome(first) == outcome(second),
{
}

/// The outcome changes between two checks exactly when an entry was present
/// at one of them and not at the other.
pub proof fn lemma_outcome_follows_presence(first: Lookup, second: Lookup)
    ensures
        outcome(first) == outcome(second) <==> (first is Present <==> second is Present),
{
}

/// Creating the entry between two checks turns "free" into "present", and
/// removing it again turns "present" back into "free".
pub proof fn lemma_create_then_remove_flips(before: Lookup, created: Lookup, removed: Lookup)
    requires
        before !is Present,
        created is Present,
        removed !is Present,
    ensures
        outcome(before) == Ok::<Seq<char>, Seq<char>>(ABSENT_TEXT@),
        outcome(created) == Err::<Seq<char>, Seq<char>>(PRESENT_TEXT@),
        outcome(created) != outcome(before),
        outcome(removed) == outcome(before),
{
}

} // verus!
