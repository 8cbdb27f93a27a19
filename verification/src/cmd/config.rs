//! The configuration command: what it shows of a setting and what it makes
//! of an answer to a prompt.

use vstd::prelude::*;
use vstd::utf8::{decode_utf8, encode_utf8, encode_utf8_decode_utf8, is_char_boundary};
use crate::text::{append_str, chars_of, string_of, trim, trim_vec};

verus! {

/// The arguments of the configuration command.
#[derive(Debug, Clone)]
pub struct ConfigArgs {
    pub command: ConfigCommand,
}

/// What the configuration command is asked to do.
#[derive(Debug, Clone)]
pub enum ConfigCommand {
    /// Run the interactive configuration wizard.
    Init,
    /// Show the stored configuration, secrets masked.
    Show,
}

/// What an answer to a prompt asks for.
#[derive(Debug, Clone)]
pub enum PromptAction {
    /// Leave the setting as it is.
    Keep,
    /// Remove the setting.
    Clear,
    /// Set the setting to this value.
    Change(String),
}

/// A setting as it is shown: its value, or a note that it is not set.
pub open spec fn shown_value(value: Option<String>) -> Seq<char> {
    match value {
        Some(text) => if text@.len() == 0 {
            "<not set>"@
        } else {
            text@
        },
        None => "<not set>"@,
    }
}

/// Shows a setting that is no secret.
pub fn display_value(value: &Option<String>) -> (out: String)
    ensures
        out@ == shown_value(*value),
{
    match value {
        Some(text) => {
            if text.as_str().is_empty() {
                "<not set>".to_owned()
            } else {
                text.clone()
            }
        },
        None => "<not set>".to_owned(),
    }
}

/// Whether a secret is long enough, and cut at the right places, for its
/// first and last three bytes to be shown.
pub open spec fn shows_ends(token: Seq<char>) -> bool {
    &&& encode_utf8(token).len() > 6
    &&& is_char_boundary(encode_utf8(token), 3)
    &&& is_char_boundary(encode_utf8(token), encode_utf8(token).len() - 3)
}

/// A secret as it is shown: the first and the last three bytes of a long
/// one with three stars between them, three stars for any other, and a
/// note where there is none.
pub open spec fn masked(token: Seq<char>) -> Seq<char> {
    let bytes = encode_utf8(token);
    if shows_ends(token) {
        decode_utf8(bytes.subrange(0, 3)) + "***"@ + decode_utf8(
            bytes.subrange(bytes.len() - 3, bytes.len() as int),
        )
    } else if token.len() > 0 {
        "***"@
    } else {
        "<not set>"@
    }
}

/// Shows a secret without giving it away.
pub fn mask_secret(value: &Option<String>) -> (out: String)
    ensures
        out@ == match value {
            Some(token) => masked(token@),
            None => "<not set>"@,
        },
{
    match value {
        Some(token) => {
            let text = token.as_str();
            let n = text.as_bytes().len();
            let ghost bytes = encode_utf8(token@);
            if n > 6 && text.is_char_boundary(3) && text.is_char_boundary(n - 3) {
                let (prefix, _) = text.split_at(3);
                let (_, suffix) = text.split_at(n - 3);
                proof {
                    encode_utf8_decode_utf8(prefix@);
                    encode_utf8_decode_utf8(suffix@);
                    assert(encode_utf8(prefix@) == bytes.subrange(0, 3));
                    assert(encode_utf8(suffix@) == bytes.subrange(n - 3, n as int));
                }
                let mut shown = chars_of(prefix);
                append_str(&mut shown, "***");
                append_str(&mut shown, suffix);
                string_of(&shown)
            } else if !text.is_empty() {
                "***".to_owned()
            } else {
                "<not set>".to_owned()
            }
        },
        None => "<not set>".to_owned(),
    }
}

/// The text of the prompt for the setting `field`: a secret that is set
/// shows as stars, any other value as it is.
pub open spec fn prompt_text(field: Seq<char>, current: Option<Seq<char>>, secret: bool) -> Seq<
    char,
> {
    match current {
        Some(value) => if secret {
            field + " [****] (Enter to keep, '-' to clear): "@
        } else {
            field + " ["@ + value + "] (Enter to keep, '-' to clear): "@
        },
        None => field + " (Enter to skip): "@,
    }
}

/// Writes the prompt for the setting `field`.
pub fn prompt_label(field: &str, current: Option<&str>, secret: bool) -> (out: String)
    ensures
        out@ == prompt_text(
            field@,
            match current {
                Some(value) => Some(value@),
                None => None,
            },
            secret,
        ),
{
    let mut text = chars_of(field);
    match current {
        Some(value) => {
            if secret {
                append_str(&mut text, " [****] (Enter to keep, '-' to clear): ");
            } else {
                append_str(&mut text, " [");
                append_str(&mut text, value);
                append_str(&mut text, "] (Enter to keep, '-' to clear): ");
            }
        },
        None => {
            append_str(&mut text, " (Enter to skip): ");
        },
    }
    string_of(&text)
}

/// Whether `action` is what the answer `input` asks for: nothing but
/// whitespace keeps the setting, a single hyphen clears it, anything else
/// becomes its value, trimmed.
pub open spec fn is_answer(action: PromptAction, input: Seq<char>) -> bool {
    if trim(input).len() == 0 {
        action is Keep
    } else if trim(input) == seq!['-'] {
        action is Clear
    } else {
        action matches PromptAction::Change(value) && value@ == trim(input)
    }
}

/// Reads what an answer to a prompt asks for.
pub fn read_action(input: &str) -> (action: PromptAction)
    ensures
        is_answer(action, input@),
{
    let trimmed = trim_vec(&chars_of(input));
    if trimmed.len() == 0 {
        PromptAction::Keep
    } else if trimmed.len() == 1 && trimmed[0] == '-' {
        assert(trimmed@ == seq!['-']);
        PromptAction::Clear
    } else {
        assert(trimmed@ != seq!['-']) by {
            if trimmed@ == seq!['-'] {
                assert(trimmed@.len() == 1 && trimmed@[0] == '-');
            }
        }
        PromptAction::Change(string_of(&trimmed))
    }
}

/// The setting after `action` was applied to it.
pub open spec fn applied(target: Option<String>, action: PromptAction) -> Option<String> {
    match action {
        PromptAction::Keep => target,
        PromptAction::Clear => None,
        PromptAction::Change(value) => Some(value),
    }
}

/// Applies the answer to a prompt to the setting it was asked for.
pub fn apply_action(target: &mut Option<String>, action: PromptAction)
    ensures
        *final(target) == applied(*old(target), action),
{
    match action {
        PromptAction::Keep => {},
        PromptAction::Clear => {
            *target = None;
        },
        PromptAction::Change(value) => {
            *target = Some(value);
        },
    }
}

} // verus!
