//! The conversation channel: showing a line of text to the user through the
//! host's prompt facility.

use crate::codes::{result_view, MessageStyle, PamResult, PamResultCode};
use vstd::prelude::*;
use vstd::string::*;

verus! {

/// A message for the host to show. No answer is read back.
#[derive(Debug, PartialEq, Eq)]
pub struct Prompt {
    pub style: MessageStyle,
    pub text: String,
}

/// A `Prompt` as the text it holds.
pub struct PromptView {
    pub style: MessageStyle,
    pub text: Seq<char>,
}

impl View for Prompt {
    type V = PromptView;

    open spec fn view(&self) -> PromptView {
        PromptView { style: self.style, text: self.text@ }
    }
}

/// The host takes text up to the first NUL character, so a message that
/// holds one cannot be shown whole.
pub open spec fn has_terminator(text: Seq<char>) -> bool {
    text.contains('\0')
}

/// The informational prompt for `msg`, or `PAM_BUF_ERR` where `msg` holds a
/// terminator.
pub open spec fn spec_info(msg: Seq<char>) -> PamResult<PromptView> {
    if has_terminator(msg) {
        Err(PamResultCode::PAM_BUF_ERR)
    } else {
        Ok(PromptView { style: MessageStyle::PAM_TEXT_INFO, text: msg })
    }
}

/// The host's answer to a prompt: only `PAM_SUCCESS` counts as shown, any
/// other code is the failure.
pub open spec fn spec_prompt_outcome(code: PamResultCode) -> PamResult<()> {
    if code == PamResultCode::PAM_SUCCESS {
        Ok(())
    } else {
        Err(code)
    }
}

/// Tells whether `text` holds a NUL character.
pub fn contains_terminator(text: &str) -> (found: bool)
    ensures
        found == has_terminator(text@),
{
    let mut found = false;
    for c in it: text.chars()
        invariant
            it.seq() == text@,
            found == (exists|k: int| 0 <= k < it.index() && text@[k] == '\0'),
    {
        if c == '\0' {
            found = true;
        }
    }
    found
}

/// Prepares an informational message for the user. A message with an
/// embedded terminator is refused with `PAM_BUF_ERR`, and then there is
/// nothing to hand to the host; any other message comes back unchanged as a
/// prompt of style `PAM_TEXT_INFO`.
pub fn info(msg: String) -> (prompt: PamResult<Prompt>)
    ensures
        result_view(prompt) == spec_info(msg@),
{
    if contains_terminator(msg.as_str()) {
        Err(PamResultCode::PAM_BUF_ERR)
    } else {
        Ok(Prompt { style: MessageStyle::PAM_TEXT_INFO, text: msg })
    }
}

/// Reads the host's answer to a prompt.
pub fn prompt_outcome(code: PamResultCode) -> (shown: PamResult<()>)
    ensures
        shown == spec_prompt_outcome(code),
{
    match code {
        PamResultCode::PAM_SUCCESS => Ok(()),
        _ => Err(code),
    }
}

} // verus!
