//! The fixed parts of every outbound exchange: the instruction template, the
//! model and the bound on generated tokens.

use vstd::prelude::*;
use vstd::string::StringExecFns;

verus! {

/// The text that precedes the submitted text in the instruction.
pub const PROMPT_PREFIX: &'static str = "Summarize the following text:\n\n";

/// The model that answers every exchange. It is configuration, never user input.
pub const MODEL: &'static str = "gpt-3.5-turbo";

/// The upper bound on generated tokens that every outbound request carries.
pub const MAX_TOKENS: u16 = 512;

/// The instruction for a submitted text: the prefix, then the text itself,
/// character for character.
pub open spec fn instruction(text: Seq<char>) -> Seq<char> {
    PROMPT_PREFIX@ + text
}

/// Builds the instruction for `text`.
pub fn build_instruction(text: &str) -> (prompt: String)
    ensures
        prompt@ == instruction(text@),
{
    let mut prompt = String::from_str(PROMPT_PREFIX);
    prompt.append(text);
    prompt
}

} // verus!
