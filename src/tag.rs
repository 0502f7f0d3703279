//! Signed labels: a plus tag asks for (or adds) a label, a minus tag asks for
//! its absence (or removes it).

use vstd::prelude::*;
use vstd::string::StringExecFns;

verus! {

#[derive(Debug, Clone, Copy, PartialEq, Eq, Structural)]
pub enum Sign {
    Plus,
    Minus,
}

#[derive(Debug, Clone)]
pub struct Tag {
    pub sign: Sign,
    pub name: String,
}

impl Tag {
    /// A tag with the given sign and name.
    pub fn new(sign: Sign, name: &str) -> (r: Tag)
        ensures
            r.sign == sign,
            r.name@ == name@,
    {
        Tag { sign, name: String::from_str(name) }
    }
}

} // verus!
