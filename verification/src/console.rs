//! Status-line categories and the rule that reads the operator's answer to
//! the run-this-code safety gate.

use vstd::prelude::*;
use vstd::string::*;

verus! {

/// The category of an agent status line; the unverified terminal layer picks
/// a colour for each.
#[derive(Clone, Copy, PartialEq, Eq, Structural, Debug)]
pub enum PrintCommand {
    AICall,
    UnitTest,
    Issue,
}

/// What a normalized operator answer means: a fixed token set grants the
/// gate, another declines it, and anything else asks for a new prompt.
pub open spec fn confirmation_of(token: Seq<char>) -> Option<bool> {
    if token == "1"@ || token == "ok"@ || token == "y"@ || token == "yes"@ {
        Some(true)
    } else if token == "2"@ || token == "no"@ || token == "n"@ {
        Some(false)
    } else {
        None
    }
}

/// Decide a normalized (trimmed, lower-case) operator answer: `Some(true)`
/// to proceed, `Some(false)` to abort, `None` to prompt again.
pub fn parse_confirmation(token: &String) -> (r: Option<bool>)
    ensures
        r == confirmation_of(token@),
{
    if *token == String::from_str("1") || *token == String::from_str("ok") || *token
        == String::from_str("y") || *token == String::from_str("yes") {
        Some(true)
    } else if *token == String::from_str("2") || *token == String::from_str("no") || *token
        == String::from_str("n") {
        Some(false)
    } else {
        None
    }
}

/// The answer text with leading and trailing whitespace removed; a function
/// of the text alone.
pub uninterp spec fn trimmed_of(s: Seq<char>) -> Seq<char>;

/// The lower-case form of the answer text; a function of the text alone.
pub uninterp spec fn lowercase_of(s: Seq<char>) -> Seq<char>;

/// Relies on `str::trim`: returns the text without leading and trailing
/// whitespace.
#[verifier::external_body]
fn trim_answer(s: &str) -> (r: &str)
    ensures
        r@ == trimmed_of(s@),
{
    s.trim()
}

/// Relies on `str::to_lowercase`: the result depends on the characters
/// alone.
#[verifier::external_body]
fn lowercase_answer(s: &str) -> (r: String)
    ensures
        r@ == lowercase_of(s@),
{
    s.to_lowercase()
}

/// Classify a raw operator answer to the safety gate, case-insensitively and
/// ignoring surrounding whitespace: `Some(true)` to proceed, `Some(false)`
/// to abort, `None` to prompt again.
pub fn classify_user_response(raw: &String) -> (r: Option<bool>)
    ensures
        r == confirmation_of(lowercase_of(trimmed_of(raw@))),
{
    let trimmed = trim_answer(raw.as_str());
    let normalized = lowercase_answer(trimmed);
    parse_confirmation(&normalized)
}

} // verus!
