use vstd::prelude::*;

use crate::text::{begins_with, starts_with_text, substitute, substitute_text};

verus! {

/// The marker that flags clipboard text as a request to render: `!tex ` (with its space).
pub open spec fn marker() -> Seq<char> {
    seq!['!', 't', 'e', 'x', ' ']
}

/// The text with every occurrence of the marker taken out, wherever it stands.
pub open spec fn strip_markers(s: Seq<char>) -> Seq<char> {
    substitute(s, marker(), Seq::empty(), true)
}

/// The marker as a string.
pub fn marker_text() -> (r: &'static str)
    ensures
        r@ == marker(),
{
    let r = "!tex ";
    proof {
        reveal_strlit("!tex ");
    }
    assert(r@ =~= marker());
    r
}

fn empty_text() -> (r: &'static str)
    ensures
        r@ == Seq::<char>::empty(),
{
    let r = "";
    proof {
        reveal_strlit("");
    }
    assert(r@ =~= Seq::<char>::empty());
    r
}

/// Whether the text starts with the marker (case-sensitive).
pub fn has_latex_macro(input: &str) -> (r: bool)
    ensures
        r == begins_with(input@, marker()),
{
    starts_with_text(input, marker_text())
}

/// The text with every occurrence of the marker removed, not only the leading one.
pub fn snip_latex(input: &str) -> (r: String)
    ensures
        r@ == strip_markers(input@),
{
    substitute_text(input, marker_text(), empty_text(), true)
}

/// The payload of marked text, or `None` when the text does not start with the marker.
pub fn detect_marker(input: &str) -> (r: Option<String>)
    ensures
        r is Some <==> begins_with(input@, marker()),
        r matches Some(p) ==> p@ == strip_markers(input@),
{
    if has_latex_macro(input) {
        Some(snip_latex(input))
    } else {
        None
    }
}

} // verus!
