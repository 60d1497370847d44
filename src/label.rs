//! Symbolic names used as jump targets and as displacements.
use vstd::prelude::*;

use crate::args::Memory;

verus! {

/// A borrowed symbolic name.
#[derive(Copy, Clone, Debug, PartialEq, Eq, Hash)]
pub struct Label<'a> {
    pub label: &'a str,
}

impl<'a> Label<'a> {
    pub open spec fn text(self) -> Seq<char> {
        self.label@
    }

    pub fn new(label: &'a str) -> (r: Self)
        ensures
            r.label == label,
    {
        Label { label }
    }

    /// An instruction-pointer-relative memory operand at this label.
    pub fn rip(&self) -> (r: Memory<'a>)
        ensures
            r == Memory::spec_rip().with_label(*self),
    {
        Memory::rip().label(*self).unwrap()
    }

    /// Appends the name to `out`.
    pub fn write_to(&self, out: &mut String)
        ensures
            final(out)@ == old(out)@ + self.text(),
    {
        out.append(self.label);
    }
}

impl<'a> From<&'a str> for Label<'a> {
    fn from(value: &'a str) -> Self {
        Label { label: value }
    }
}

impl<'a> vstd::std_specs::convert::FromSpecImpl<&'a str> for Label<'a> {
    open spec fn obeys_from_spec() -> bool {
        true
    }

    open spec fn from_spec(v: &'a str) -> Self {
        Label { label: v }
    }
}

} // verus!
