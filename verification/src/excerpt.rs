//! Choosing between string slices and keeping a reference to part of one.

use vstd::prelude::*;
use vstd::string::StringSliceAdditionalSpecFns;

verus! {

/// Returns the longer of the two string slices, measured in bytes; ties go to
/// the second slice.
pub fn longest<'a>(x: &'a str, y: &'a str) -> (r: &'a str)
    requires
        x.spec_bytes().len() <= usize::MAX,
        y.spec_bytes().len() <= usize::MAX,
    ensures
        x.spec_bytes().len() > y.spec_bytes().len() ==> r@ == x@,
        x.spec_bytes().len() <= y.spec_bytes().len() ==> r@ == y@,
{
    if x.len() > y.len() {
        x
    } else {
        y
    }
}

/// A reference to one part (for instance, the first sentence) of a longer
/// piece of text, carrying the text's lifetime.
pub struct ImportantExcerpt<'a> {
    part: &'a str,
}

impl<'a> View for ImportantExcerpt<'a> {
    type V = Seq<char>;

    closed spec fn view(&self) -> Seq<char> {
        self.part@
    }
}

impl<'a> ImportantExcerpt<'a> {
    pub fn new(sentence: &'a str) -> (r: Self)
        ensures
            r@ == sentence@,
    {
        Self { part: sentence }
    }

    pub fn part(&self) -> (r: &'a str)
        ensures
            r@ == self@,
    {
        self.part
    }
}

} // verus!
