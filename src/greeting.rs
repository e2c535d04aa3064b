use vstd::prelude::*;
use vstd::string::StringExecFns;

verus! {

/// The text that precedes the name in a greeting.
pub open spec fn greeting_prefix() -> Seq<char> {
    seq!['H', 'e', 'l', 'l', 'o', ',', ' ']
}

/// The text that follows the name in a greeting.
pub open spec fn greeting_suffix() -> Seq<char> {
    "! You've been greeted from Rust!"@
}

/// The greeting addressed to `name`.
pub open spec fn greeting_for(name: Seq<char>) -> Seq<char> {
    greeting_prefix() + name + greeting_suffix()
}

/// Greets `name`; any text is accepted, the empty one included.
pub fn greet(name: &str) -> (r: String)
    ensures
        r@ == greeting_for(name@),
{
    let mut r = String::from_str("Hello, ");
    proof { reveal_strlit("Hello, "); }
    r.append(name);
    r.append("! You've been greeted from Rust!");
    r
}

/// The name stands unchanged between the fixed prefix and suffix, whatever it
/// holds (empty, quotes, punctuation), so it can be read back from the greeting.
pub proof fn lemma_greeting_round_trip(name: Seq<char>)
    ensures
        greeting_for(name).len() == greeting_prefix().len() + name.len() + greeting_suffix().len(),
        greeting_for(name).subrange(0, greeting_prefix().len() as int) == greeting_prefix(),
        greeting_for(name).subrange(
            greeting_prefix().len() as int,
            (greeting_prefix().len() + name.len()) as int,
        ) == name,
        greeting_for(name).subrange(
            (greeting_prefix().len() + name.len()) as int,
            greeting_for(name).len() as int,
        ) == greeting_suffix(),
{
    let g = greeting_for(name);
    let p = greeting_prefix().len() as int;
    assert(g.subrange(0, p) =~= greeting_prefix());
    assert(g.subrange(p, p + name.len()) =~= name);
    assert(g.subrange(p + name.len(), g.len() as int) =~= greeting_suffix());
}

} // verus!
