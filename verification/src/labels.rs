//! The two symbolic classes and the mapping from a numeric class value.

use vstd::prelude::*;

verus! {

/// The symbolic class of a sample: the positive class is rendered as
/// "accepted", the negative one as "denied".
#[derive(Clone, Copy, Debug, PartialEq, Eq, Structural)]
pub enum Label {
    Accepted,
    Denied,
}

impl Label {
    /// The string form the program prints and plots under.
    pub fn as_str(&self) -> (r: &'static str)
        ensures
            *self == Label::Accepted ==> r@ == "accepted"@,
            *self == Label::Denied ==> r@ == "denied"@,
    {
        match self {
            Label::Accepted => "accepted",
            Label::Denied => "denied",
        }
    }
}

/// The class a numeric class value stands for: exactly 1 is `Accepted`,
/// anything else is `Denied`.
pub open spec fn spec_label_of(value: u64) -> Label {
    if value == 1 {
        Label::Accepted
    } else {
        Label::Denied
    }
}

/// Maps the numeric class value of a row (the third column, truncated to an
/// integer) to its symbolic class: exactly 1 is `Accepted`, anything else is
/// `Denied`.
pub fn label_of_numeric(value: u64) -> (r: Label)
    ensures
        r == spec_label_of(value),
        r == Label::Accepted <==> value == 1,
{
    if value == 1 {
        Label::Accepted
    } else {
        Label::Denied
    }
}

} // verus!
