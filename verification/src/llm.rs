//! Messages sent to the code oracle, and the cleanup applied to its replies.

use vstd::prelude::*;
use vstd::string::*;

verus! {

/// One chat message handed to the code oracle.
pub struct Message {
    pub role: String,
    pub content: String,
}

/// The content of a prompt that wraps an oracle-function template and its
/// input in the fixed function-printer instruction.
pub open spec fn extended_message_content(ai_function_str: Seq<char>, func_input: Seq<char>) -> Seq<
    char,
> {
    "FUNCTION "@ + ai_function_str
        + "\n    INSTRUCTION You are a function printer. You ONLY print the results of functions.\n    Nothing else. No commentry. Here is the input to the function: "@
        + func_input + ".\n    Print out what the function will return."@
}

/// Wrap an oracle-function template and its input into the system message
/// that instructs the oracle to print only the function's result.
pub fn extend_ai_function(ai_function_str: &str, func_input: &str) -> (m: Message)
    ensures
        m.role@ == "system"@,
        m.content@ == extended_message_content(ai_function_str@, func_input@),
{
    let mut content = String::from_str("FUNCTION ");
    content.append(ai_function_str);
    content.append(
        "\n    INSTRUCTION You are a function printer. You ONLY print the results of functions.\n    Nothing else. No commentry. Here is the input to the function: ",
    );
    content.append(func_input);
    content.append(".\n    Print out what the function will return.");
    Message { role: String::from_str("system"), content }
}

/// What remains of an oracle reply once markdown code fences are removed: a
/// fence line at the very start of the text, and a trailing fence, are cut.
/// The result depends on the reply text alone.
pub uninterp spec fn fence_stripped(s: Seq<char>) -> Seq<char>;

/// Relies on `regex::Regex::new` and `regex::Regex::replace_all`: every
/// non-overlapping match of the fixed fence pattern is replaced by the empty
/// string, and the result is a function of the haystack alone.
#[verifier::external_body]
pub(crate) fn strip_code_fences(text: &str) -> (r: String)
    ensures
        r@ == fence_stripped(text@),
{
    let markdown_regex = regex::Regex::new(r"(^```.*(\r\n|\r|\n)|```\s*$)").unwrap();
    markdown_regex.replace_all(text, "").to_string()
}

} // verus!
