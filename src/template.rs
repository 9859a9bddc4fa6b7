use vstd::prelude::*;

use crate::text::{
    count_occurrences, count_text, lemma_substitute_absent, occurs_in, substitute, substitute_text,
};

verus! {

/// The token in a document template where the payload goes: `%INSERT%`.
pub open spec fn placeholder() -> Seq<char> {
    seq!['%', 'I', 'N', 'S', 'E', 'R', 'T', '%']
}

/// The document source: the template with its first placeholder replaced by the payload.
pub open spec fn bind(template: Seq<char>, payload: Seq<char>) -> Seq<char> {
    substitute(template, placeholder(), payload, false)
}

/// The placeholder token as a string.
pub fn placeholder_text() -> (r: &'static str)
    ensures
        r@ == placeholder(),
{
    let r = "%INSERT%";
    proof {
        reveal_strlit("%INSERT%");
    }
    assert(r@ =~= placeholder());
    r
}

/// A usable template holds the placeholder exactly once.
pub open spec fn well_formed_template(template: Seq<char>) -> bool {
    count_occurrences(template, placeholder()) == 1
}

/// Whether the template holds the placeholder exactly once; any other template is a
/// configuration error.
pub fn is_valid_template(template: &str) -> (r: bool)
    ensures
        r == well_formed_template(template@),
{
    count_text(template, placeholder_text()) == 1
}

/// Embeds a LaTeX fragment in a document template. The payload is not escaped.
pub fn bind_template(template: &str, payload: &str) -> (r: String)
    ensures
        r@ == bind(template@, payload@),
{
    substitute_text(template, placeholder_text(), payload, false)
}

/// Binding the same payload into the same template twice gives the same document.
pub proof fn lemma_bind_deterministic(template: Seq<char>, payload: Seq<char>, first: Seq<char>, second: Seq<char>)
    requires
        first == bind(template, payload),
        second == bind(template, payload),
    ensures
        first == second,
{
}

/// A template without the placeholder comes back unchanged, whatever the payload.
pub proof fn lemma_bind_without_placeholder(template: Seq<char>, payload: Seq<char>)
    requires
        !occurs_in(template, placeholder()),
    ensures
        bind(template, payload) == template,
{
    lemma_substitute_absent(template, placeholder(), payload, false);
}

} // verus!
