//! Passing text by shared reference, by mutable reference and by value.
use vstd::prelude::*;

verus! {

/// The suffix that `this_borrows_mutable` appends.
pub open spec fn greeting_suffix() -> Seq<char> {
    ", nice to meet you!"@
}

/// The text that `this_consumes` hands back in place of what it took.
pub open spec fn eaten_text() -> Seq<char> {
    "I ate your string!"@
}

/// Reads `x` through a shared borrow: whether its UTF-8 encoding is longer
/// than five bytes.
pub fn this_borrows(x: &str) -> (r: bool)
    ensures
        r == (x.len() > 5),
{
    x.len() > 5
}

/// Changes `x` through a mutable borrow: appends `, nice to meet you!`.
pub fn this_borrows_mutable(x: &mut String)
    ensures
        final(x)@ == old(x)@ + greeting_suffix(),
{
    x.append(", nice to meet you!");
}

/// Takes ownership of `x`, which the caller can no longer use, and returns
/// `I ate your string!` whatever `x` held.
pub fn this_consumes(x: String) -> (r: String)
    ensures
        r@ == eaten_text(),
{
    let _ = x;
    "I ate your string!".to_string()
}

/// The lines that the borrowing demonstration prints: a name that is still
/// usable after a shared borrow, a name changed through a mutable borrow, and
/// what a function that took ownership returned.
pub fn ownership_and_borrowing() -> (lines: Vec<String>)
    ensures
        lines.deep_view() == seq![
            "Gustav"@,
            "Johan, nice to meet you!"@,
            "I ate your string!"@,
        ],
{
    let mut lines: Vec<String> = Vec::new();

    let name = "Gustav".to_string();
    let _long = this_borrows(name.as_str());
    lines.push(name);

    let mut name = "Johan".to_string();
    this_borrows_mutable(&mut name);
    proof {
        reveal_strlit("Johan");
        reveal_strlit(", nice to meet you!");
        reveal_strlit("Johan, nice to meet you!");
        assert(name@ =~= "Johan, nice to meet you!"@);
    }
    lines.push(name);

    let name = "Peter".to_string();
    let data = this_consumes(name);
    lines.push(data);

    proof {
        assert(lines.deep_view() =~= seq![
            "Gustav"@,
            "Johan, nice to meet you!"@,
            "I ate your string!"@,
        ]);
    }
    lines
}

} // verus!
