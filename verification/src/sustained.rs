//! A pair that owns its backing buffer together with two derived views.

use vstd::prelude::*;
use vstd::string::StrSliceExecFns;
use crate::pair::Pair;
use crate::text::CowStr;
use crate::text::TextLike;

verus! {

/// A derived pair element: either a span of the backing buffer, given as
/// character indices, or an independently owned string.
///
/// Storing character offsets instead of references sidesteps self-referential
/// borrowing: the view into the buffer is recomputed on each access.
pub enum SpanOrOwned {
    /// The characters `start..end` of the backing buffer.
    Span { start: usize, end: usize },
    /// An independently owned string.
    Owned(String),
}

/// Whether a derived element is meaningful for a buffer of `len` characters.
pub open spec fn span_valid(d: SpanOrOwned, len: nat) -> bool {
    match d {
        SpanOrOwned::Span { start, end } => start <= end <= len,
        SpanOrOwned::Owned(_) => true,
    }
}

/// The character content a derived element denotes against buffer `buf`.
pub open spec fn resolve(d: SpanOrOwned, buf: Seq<char>) -> Seq<char> {
    match d {
        SpanOrOwned::Span { start, end } => buf.subrange(start as int, end as int),
        SpanOrOwned::Owned(s) => s@,
    }
}

/// A pair that owns one backing text buffer and two derived elements, each
/// either a span of that buffer or an independently owned string. Buffer and
/// derived elements live and die together; accessors recompute the borrowed
/// views on demand, so no stored reference can dangle.
pub struct SelfSustainedPair {
    line: String,
    first: SpanOrOwned,
    second: SpanOrOwned,
}

impl SelfSustainedPair {
    /// Both derived elements stay within the backing buffer.
    #[verifier::type_invariant]
    spec fn wf(&self) -> bool {
        span_valid(self.first, self.line@.len()) && span_valid(self.second, self.line@.len())
    }

    /// The character content of the backing buffer.
    pub closed spec fn buffer(&self) -> Seq<char> {
        self.line@
    }

    /// Constructs the pair from an owned buffer and an initializer. The
    /// initializer is invoked exactly once, on a read-only view of the buffer
    /// in its final storage location, and produces the two derived elements.
    ///
    /// Returns `None` exactly when the initializer produced a span that does
    /// not fit the buffer.
    pub fn new<F: FnOnce(&str) -> (SpanOrOwned, SpanOrOwned)>(line: String, init: F) -> (r:
        Option<SelfSustainedPair>)
        requires
            forall|buf: &str| buf@ == line@ ==> #[trigger] call_requires(init, (buf,)),
        ensures
            match r {
                Some(p) => {
                    &&& p.buffer() == line@
                    &&& exists|buf: &str, fs: (SpanOrOwned, SpanOrOwned)|
                        {
                            &&& buf@ == line@
                            &&& #[trigger] call_ensures(init, (buf,), fs)
                            &&& span_valid(fs.0, line@.len())
                            &&& span_valid(fs.1, line@.len())
                            &&& p.first_text() == resolve(fs.0, line@)
                            &&& p.second_text() == resolve(fs.1, line@)
                        }
                },
                None => exists|buf: &str, fs: (SpanOrOwned, SpanOrOwned)|
                    {
                        &&& buf@ == line@
                        &&& #[trigger] call_ensures(init, (buf,), fs)
                        &&& !(span_valid(fs.0, line@.len()) && span_valid(fs.1, line@.len()))
                    },
            },
    {
        let n = line.as_str().unicode_len();
        let (first, second) = init(line.as_str());
        if span_fits(&first, n) && span_fits(&second, n) {
            Some(SelfSustainedPair { line, first, second })
        } else {
            None
        }
    }

    /// A read-only view of the first derived element, valid for the duration
    /// of this borrow of the pair.
    pub fn first_<'s>(&'s self) -> (r: CowStr<'s>)
        ensures
            r.text() == self.first_text(),
    {
        proof {
            use_type_invariant(self);
        }
        match &self.first {
            SpanOrOwned::Span { start, end } => CowStr::Borrowed(
                self.line.as_str().substring_char(*start, *end),
            ),
            SpanOrOwned::Owned(s) => CowStr::Borrowed(s.as_str()),
        }
    }

    /// A read-only view of the second derived element, valid for the duration
    /// of this borrow of the pair.
    pub fn second_<'s>(&'s self) -> (r: CowStr<'s>)
        ensures
            r.text() == self.second_text(),
    {
        proof {
            use_type_invariant(self);
        }
        match &self.second {
            SpanOrOwned::Span { start, end } => CowStr::Borrowed(
                self.line.as_str().substring_char(*start, *end),
            ),
            SpanOrOwned::Owned(s) => CowStr::Borrowed(s.as_str()),
        }
    }
}

/// Splits `line` at character index `k` into a self-sustained pair: the first
/// derived element is the span of the characters before `k`, the second the
/// span of the characters from `k` on. Returns `None` exactly when `k` lies
/// beyond the end of the buffer.
pub fn split_at(line: String, k: usize) -> (r: Option<SelfSustainedPair>)
    ensures
        match r {
            Some(p) => {
                &&& k <= line@.len()
                &&& p.buffer() == line@
                &&& p.first_text() == line@.subrange(0, k as int)
                &&& p.second_text() == line@.subrange(k as int, line@.len() as int)
            },
            None => k > line@.len(),
        },
{
    let init = |buf: &str| -> (fs: (SpanOrOwned, SpanOrOwned))
        ensures
            fs.0 == (SpanOrOwned::Span { start: 0usize, end: k }),
            fs.1 matches SpanOrOwned::Span { start, end } && start == k && end as nat
                == buf@.len(),
        {
            let n = buf.unicode_len();
            (SpanOrOwned::Span { start: 0, end: k }, SpanOrOwned::Span { start: k, end: n })
        };
    SelfSustainedPair::new(line, init)
}

/// Law: repeated reads of the same slot return identical content. The
/// accessors' results are a function of the pair alone, so a view read after
/// the constructor returns agrees with one read after any number of further
/// accessor calls.
pub proof fn lemma_repeated_reads_agree<'a, 'b>(
    p: SelfSustainedPair,
    r1: CowStr<'a>,
    r2: CowStr<'b>,
)
    requires
        r1.text() == p.first_text(),
        r2.text() == p.first_text(),
    ensures
        r1.text() == r2.text(),
{
}

/// Whether a derived element fits a buffer of `len` characters.
fn span_fits(d: &SpanOrOwned, len: usize) -> (b: bool)
    ensures
        b == span_valid(*d, len as nat),
{
    match d {
        SpanOrOwned::Span { start, end } => *start <= *end && *end <= len,
        SpanOrOwned::Owned(_) => true,
    }
}

impl Pair for SelfSustainedPair {
    closed spec fn first_text(&self) -> Seq<char> {
        resolve(self.first, self.line@)
    }

    closed spec fn second_text(&self) -> Seq<char> {
        resolve(self.second, self.line@)
    }

    fn first<'s>(&'s self) -> (r: CowStr<'s>) {
        self.first_()
    }

    fn second<'s>(&'s self) -> (r: CowStr<'s>) {
        self.second_()
    }
}

} // verus!
