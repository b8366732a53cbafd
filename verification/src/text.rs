//! Text-like element values: anything convertible to a read-only text view.

use vstd::prelude::*;

verus! {

/// A value convertible to a read-only text view. Its mathematical model is
/// the sequence of characters [`TextLike::text`]; the executable accessor
/// [`TextLike::as_text`] exposes exactly that sequence.
pub trait TextLike {
    /// The character content of this value.
    spec fn text(&self) -> Seq<char>;

    /// A read-only text view of this value, valid for the duration of the
    /// borrow of `self`.
    fn as_text(&self) -> (r: &str)
        ensures
            r@ == self.text(),
    ;
}

impl TextLike for String {
    open spec fn text(&self) -> Seq<char> {
        self@
    }

    fn as_text(&self) -> (r: &str) {
        self.as_str()
    }
}

impl<'a> TextLike for &'a str {
    open spec fn text(&self) -> Seq<char> {
        (*self)@
    }

    fn as_text(&self) -> (r: &str) {
        *self
    }
}

/// A copy-on-write text value: either a borrowed view of text living
/// elsewhere, or an owned copy. Decided at construction; readers see only the
/// character content, which is the same either way.
pub enum CowStr<'a> {
    Borrowed(&'a str),
    Owned(String),
}

impl<'a> TextLike for CowStr<'a> {
    open spec fn text(&self) -> Seq<char> {
        match self {
            CowStr::Borrowed(s) => (*s)@,
            CowStr::Owned(s) => s@,
        }
    }

    fn as_text(&self) -> (r: &str) {
        match self {
            CowStr::Borrowed(s) => *s,
            CowStr::Owned(s) => s.as_str(),
        }
    }
}

} // verus!
