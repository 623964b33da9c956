//! Bindings, mutation, text and iteration over a list of integers.
use vstd::prelude::*;

use crate::text::{push_signed_decimal, signed_decimal};

verus! {

/// The line printed for the list element `x`: its decimal form and `!`.
pub open spec fn exclaimed(x: int) -> Seq<char> {
    signed_decimal(x) + "!"@
}

/// The line for one list element: `{x}!`.
pub fn exclaim(x: i32) -> (r: String)
    ensures
        r@ == exclaimed(x as int),
{
    let mut s = String::new();
    push_signed_decimal(&mut s, x as i64);
    s.append("!");
    s
}

/// The lines for each element of `xs`, in order.
pub fn exclaim_all(xs: &Vec<i32>) -> (lines: Vec<String>)
    ensures
        lines@.len() == xs@.len(),
        forall|i: int| 0 <= i < xs@.len() ==> #[trigger] lines@[i]@ == exclaimed(xs@[i] as int),
{
    let mut lines: Vec<String> = Vec::new();
    for k in 0..xs.len()
        invariant
            lines@.len() == k,
            forall|i: int| 0 <= i < k ==> #[trigger] lines@[i]@ == exclaimed(xs@[i] as int),
    {
        lines.push(exclaim(xs[k]));
    }
    lines
}

/// The lines that the first demonstration prints: one per element of the
/// list `7, 3, 8`.
pub fn getting_started() -> (lines: Vec<String>)
    ensures
        lines.deep_view() == seq!["7!"@, "3!"@, "8!"@],
{
    let x: i32 = 1;
    let mut y: i32 = 2;
    y += 1;
    assert(x == 1 && y == 3);

    let x = "Hello";
    let mut y = x.to_string();
    y.append(" World!");
    proof {
        reveal_strlit("Hello");
        reveal_strlit(" World!");
        reveal_strlit("Hello World!");
        assert(y@ =~= "Hello World!"@);
    }

    let xs: Vec<i32> = vec![7, 3, 8];
    let lines = exclaim_all(&xs);
    proof {
        reveal_strlit("!");
        reveal_strlit("7!");
        reveal_strlit("3!");
        reveal_strlit("8!");
        assert(lines@[0]@ =~= "7!"@);
        assert(lines@[1]@ =~= "3!"@);
        assert(lines@[2]@ =~= "8!"@);
        assert(lines.deep_view() =~= seq!["7!"@, "3!"@, "8!"@]);
    }
    lines
}

} // verus!
