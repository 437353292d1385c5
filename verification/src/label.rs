//! Window labels: which windows are secondary, and how a creation notice
//! names its window.

use vstd::prelude::*;
use vstd::string::*;

verus! {

/// The text that the label of every secondary window starts with: `aegis-`.
pub open spec fn secondary_prefix() -> Seq<char> {
    seq!['a', 'e', 'g', 'i', 's', '-']
}

/// The member of a creation notice that carries the window's label: `label`.
pub open spec fn label_key() -> Seq<char> {
    seq!['l', 'a', 'b', 'e', 'l']
}

/// A label is that of a secondary window when it starts with the prefix.
pub open spec fn is_secondary_label(label: Seq<char>) -> bool {
    secondary_prefix().is_prefix_of(label)
}

/// The label of the main window: `main`.
pub open spec fn main_label() -> Seq<char> {
    seq!['m', 'a', 'i', 'n']
}

/// The text of an optional string.
pub open spec fn text_of(value: Option<String>) -> Option<Seq<char>> {
    match value {
        Some(s) => Some(s@),
        None => None,
    }
}

/// Does `text` start with `prefix`, character by character?
pub fn starts_with(text: &str, prefix: &str) -> (found: bool)
    ensures
        found == prefix@.is_prefix_of(text@),
{
    let wanted: usize = prefix.unicode_len();
    let given: usize = text.unicode_len();
    if given < wanted {
        return false;
    }
    let mut i: usize = 0;
    while i < wanted
        invariant
            i <= wanted,
            wanted == prefix@.len(),
            given == text@.len(),
            wanted <= given,
            forall|k: int| 0 <= k < i ==> prefix@[k] == text@[k],
        decreases wanted - i,
    {
        if prefix.get_char(i) != text.get_char(i) {
            assert(text@.subrange(0, wanted as int)[i as int] != prefix@[i as int]);
            return false;
        }
        i = i + 1;
    }
    assert(prefix@ =~= text@.subrange(0, wanted as int));
    true
}

/// Is `label` the label of a secondary window?
pub fn is_secondary_window(label: &str) -> (secondary: bool)
    ensures
        secondary == is_secondary_label(label@),
{
    proof {
        reveal_strlit("aegis-");
        assert("aegis-"@ =~= secondary_prefix());
    }
    starts_with(label, "aegis-")
}

/// The label of the main window.
pub fn main_window_label() -> (label: &'static str)
    ensures
        label@ == main_label(),
{
    proof {
        reveal_strlit("main");
        assert("main"@ =~= main_label());
    }
    "main"
}

/// The main window is no secondary window: a notice of its creation starts
/// no reaction.
pub proof fn law_main_window_is_not_secondary()
    ensures
        !is_secondary_label(main_label()),
{
    assert(main_label()[0] != secondary_prefix()[0]);
    assert(main_label().subrange(0, 4)[0] == main_label()[0]);
}

/// What `serde_json` reads as the string member `key` of the JSON text
/// `text`: the member's text where `text` parses and holds a string under
/// `key`, and nothing otherwise.
pub uninterp spec fn json_string_member(text: Seq<char>, key: Seq<char>) -> Option<Seq<char>>;

/// Parses `text` with `serde_json::from_str` into a `serde_json::Value` and
/// looks `key` up with `Value::get`.
///
/// Trusted, not proved: the result is the one named by `json_string_member`,
/// that is, it depends on the two texts alone. The member is handed out only
/// where the parse succeeded and the value found is a JSON string.
#[verifier::external_body]
fn read_string_member(text: &str, key: &str) -> (member: Option<String>)
    ensures
        text_of(member) == json_string_member(text@, key@),
{
    let parsed: Result<serde_json::Value, serde_json::Error> = serde_json::from_str(text);
    match parsed {
        Ok(document) => match document.get(key) {
            Some(serde_json::Value::String(s)) => Some(s.clone()),
            _ => None,
        },
        Err(_) => None,
    }
}

/// The label that a creation notice carries, if it carries one.
///
/// The notice is JSON text; the label is its string member `label`.
pub fn created_window_label(payload: &str) -> (label: Option<String>)
    ensures
        text_of(label) == json_string_member(payload@, label_key()),
{
    proof {
        reveal_strlit("label");
        assert("label"@ =~= label_key());
    }
    read_string_member(payload, "label")
}

} // verus!
