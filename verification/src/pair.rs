//! The pair capability: two ordered, text-convertible slots.

use vstd::prelude::*;
use crate::text::CowStr;
use crate::text::TextLike;

verus! {

/// A container exposing exactly two ordered slots, each convertible to a
/// read-only text view.
///
/// Each call to `first`/`second` produces a view whose validity is scoped to
/// the borrow of the container made by that call, not to a lifetime fixed in
/// the container's type. This admits implementers whose element views point
/// into storage private to the container itself.
pub trait Pair {
    /// The character content of the first slot.
    spec fn first_text(&self) -> Seq<char>;

    /// The character content of the second slot.
    spec fn second_text(&self) -> Seq<char>;

    /// A read-only view of the first slot.
    fn first<'s>(&'s self) -> (r: CowStr<'s>)
        ensures
            r.text() == self.first_text(),
    ;

    /// A read-only view of the second slot.
    fn second<'s>(&'s self) -> (r: CowStr<'s>)
        ensures
            r.text() == self.second_text(),
    ;
}

impl<T: TextLike> Pair for (T, T) {
    open spec fn first_text(&self) -> Seq<char> {
        self.0.text()
    }

    open spec fn second_text(&self) -> Seq<char> {
        self.1.text()
    }

    fn first<'s>(&'s self) -> (r: CowStr<'s>) {
        CowStr::Borrowed(self.0.as_text())
    }

    fn second<'s>(&'s self) -> (r: CowStr<'s>) {
        CowStr::Borrowed(self.1.as_text())
    }
}

/// Law: for a homogeneous 2-tuple, every view the accessors may return
/// carries exactly the content of the first and second stored values,
/// unchanged, whatever the element type.
pub proof fn lemma_tuple_accessors_exact<'a, 'b, T: TextLike>(p: (T, T), r1: CowStr<'a>, r2: CowStr<'b>)
    requires
        r1.text() == p.first_text(),
        r2.text() == p.second_text(),
    ensures
        r1.text() == p.0.text(),
        r2.text() == p.1.text(),
{
}

/// Law: for a homogeneous 2-element array, every view the accessors may
/// return carries exactly the content of the first and second stored values,
/// unchanged, whatever the element type.
pub proof fn lemma_array_accessors_exact<'a, 'b, T: TextLike>(p: [T; 2], r1: CowStr<'a>, r2: CowStr<'b>)
    requires
        r1.text() == p.first_text(),
        r2.text() == p.second_text(),
    ensures
        r1.text() == p@[0].text(),
        r2.text() == p@[1].text(),
{
}

impl<T: TextLike> Pair for [T; 2] {
    open spec fn first_text(&self) -> Seq<char> {
        self@[0].text()
    }

    open spec fn second_text(&self) -> Seq<char> {
        self@[1].text()
    }

    fn first<'s>(&'s self) -> (r: CowStr<'s>) {
        CowStr::Borrowed(self[0].as_text())
    }

    fn second<'s>(&'s self) -> (r: CowStr<'s>) {
        CowStr::Borrowed(self[1].as_text())
    }
}

} // verus!
