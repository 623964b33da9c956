//! A person record: a name and an age, with a constructor that fills in a
//! default name and a fixed-form introduction.
use vstd::prelude::*;

use crate::text::{decimal, push_decimal};

verus! {

/// The name a person gets when constructed with an empty one.
pub open spec fn default_name() -> Seq<char> {
    "anonymous"@
}

/// The stored name for a requested one: the request itself, or the default
/// name where the request is empty.
pub open spec fn name_or_default(name: Seq<char>) -> Seq<char> {
    if name.len() == 0 {
        default_name()
    } else {
        name
    }
}

/// The introduction of a person named `name` of age `age`:
/// `Hi, I'm {name}. I'm {age} years old`.
pub open spec fn greeting(name: Seq<char>, age: nat) -> Seq<char> {
    "Hi, I'm "@ + name + ". I'm "@ + decimal(age) + " years old"@
}

/// A person, with a name and an age that fits in 16 bits.
pub struct Person {
    pub name: String,
    pub age: u16,
}

impl Person {
    /// A person of the given age, named `name`, or `anonymous` where `name`
    /// is empty.
    pub fn new(name: &str, age: u16) -> (p: Person)
        ensures
            p.name@ == name_or_default(name@),
            p.age == age,
    {
        let name = if name.is_empty() {
            "anonymous".to_string()
        } else {
            name.to_string()
        };
        Person { name, age }
    }

    /// The person's introduction: `Hi, I'm {name}. I'm {age} years old`.
    pub fn to_string(&self) -> (s: String)
        ensures
            s@ == greeting(self.name@, self.age as nat),
    {
        let mut s = "Hi, I'm ".to_string();
        s.append(self.name.as_str());
        s.append(". I'm ");
        push_decimal(&mut s, self.age as u64);
        s.append(" years old");
        s
    }
}

/// The lines that the record demonstration prints: the introduction of a
/// person named Jim, aged 25.
pub fn custom_types() -> (lines: Vec<String>)
    ensures
        lines.deep_view() == seq!["Hi, I'm Jim. I'm 25 years old"@],
{
    let jim = Person { name: "Jim".to_string(), age: 25 };
    let line = jim.to_string();
    proof {
        reveal_strlit("Jim");
        reveal_strlit("Hi, I'm ");
        reveal_strlit(". I'm ");
        reveal_strlit(" years old");
        reveal_strlit("Hi, I'm Jim. I'm 25 years old");
        reveal_with_fuel(decimal, 2);
        assert(line@ =~= "Hi, I'm Jim. I'm 25 years old"@);
    }
    let mut lines: Vec<String> = Vec::new();
    lines.push(line);
    proof {
        assert(lines.deep_view() =~= seq!["Hi, I'm Jim. I'm 25 years old"@]);
    }
    lines
}

} // verus!
