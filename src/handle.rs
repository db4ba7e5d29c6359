use vstd::prelude::*;

verus! {

/// A reference to an object owned by the foreign runtime, held on the host side.
#[derive(Clone, Copy, Debug, PartialEq, Eq, Structural)]
pub struct Handle {
    pub id: u64,
}

/// How a unit of work ended: with a value or with an error, both foreign objects.
#[derive(Clone, Copy, Debug, PartialEq, Eq, Structural)]
pub enum Outcome {
    Value(Handle),
    Error(Handle),
}

impl Outcome {
    pub fn is_value(&self) -> (r: bool)
        ensures
            r <==> self is Value,
    {
        match self {
            Outcome::Value(_) => true,
            Outcome::Error(_) => false,
        }
    }
}

} // verus!
