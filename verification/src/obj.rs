//! Heap-allocated runtime objects.

use vstd::prelude::*;

verus! {

/// An object that a value owns on the heap.
#[derive(Debug)]
pub enum Obj {
    /// An owned string.
    Str(String),
}

impl View for Obj {
    type V = Seq<char>;

    open spec fn view(&self) -> Seq<char> {
        match self {
            Obj::Str(s) => s@,
        }
    }
}

impl Clone for Obj {
    fn clone(&self) -> (res: Self)
        ensures
            res@ == self@,
    {
        match self {
            Obj::Str(s) => Obj::Str(s.clone()),
        }
    }
}

impl From<String> for Obj {
    fn from(value: String) -> (res: Self) {
        Obj::Str(value)
    }
}

impl vstd::std_specs::convert::FromSpecImpl<String> for Obj {
    open spec fn obeys_from_spec() -> bool {
        true
    }

    open spec fn from_spec(value: String) -> Self {
        Obj::Str(value)
    }
}

impl Obj {
    /// The characters of the string this object holds.
    pub fn as_string(&self) -> (res: &String)
        ensures
            res@ == self@,
    {
        match self {
            Obj::Str(s) => s,
        }
    }
}

} // verus!
