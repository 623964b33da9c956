//! A small tour of everyday language features, each one given a contract:
//! bindings and mutation, text and iteration, a record type with a
//! constructor and a formatting rule, and borrowing versus moving.
use vstd::prelude::*;

pub mod basics;
pub mod ownership;
pub mod person;
pub mod text;

use crate::basics::getting_started;
use crate::ownership::ownership_and_borrowing;
use crate::person::custom_types;

verus! {

/// Everything the program prints, line by line: the three demonstrations
/// in turn. It depends on nothing, so every run prints the same text.
pub open spec fn program_text() -> Seq<Seq<char>> {
    seq![
        "7!"@,
        "3!"@,
        "8!"@,
        "Hi, I'm Jim. I'm 25 years old"@,
        "Gustav"@,
        "Johan, nice to meet you!"@,
        "I ate your string!"@,
    ]
}

/// The lines of all three demonstrations, in the order the program runs them.
pub fn program_output() -> (lines: Vec<String>)
    ensures
        lines.deep_view() == program_text(),
{
    let mut lines = getting_started();
    let mut more = custom_types();
    let ghost first = lines@;
    let ghost second = more@;
    proof {
        assert(lines.deep_view().len() == 3);
        assert(more.deep_view().len() == 1);
    }
    lines.append(&mut more);
    let mut rest = ownership_and_borrowing();
    let ghost third = rest@;
    proof {
        assert(rest.deep_view().len() == 3);
    }
    lines.append(&mut rest);
    proof {
        assert(lines@ == first + second + third);
        assert forall|i: int| 0 <= i < 7 implies lines@[i]@ == #[trigger] program_text()[i] by {
            if i < 3 {
                assert(lines@[i] == first[i]);
                assert(first[i]@ == seq!["7!"@, "3!"@, "8!"@][i]);
            } else if i < 4 {
                assert(lines@[i] == second[i - 3]);
                assert(second[i - 3]@ == seq!["Hi, I'm Jim. I'm 25 years old"@][i - 3]);
            } else {
                assert(lines@[i] == third[i - 4]);
                assert(third[i - 4]@ == seq![
                    "Gustav"@,
                    "Johan, nice to meet you!"@,
                    "I ate your string!"@,
                ][i - 4]);
            }
        }
        assert(lines.deep_view() =~= program_text());
    }
    lines
}

} // verus!
