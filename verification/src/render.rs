//! A generic consumer: renders a sequence of pairs, one line per pair.

use vstd::prelude::*;
use crate::pair::Pair;
use crate::text::TextLike;

verus! {

/// The line rendered for a pair whose slots hold `a` and `b`: each element
/// quoted, the two separated by one space, in order.
pub open spec fn line_of(a: Seq<char>, b: Seq<char>) -> Seq<char> {
    seq!['"'] + a + seq!['"', ' ', '"'] + b + seq!['"']
}

/// Relies on `String::push_str`: appends the given string slice onto the end
/// of this `String`.
#[verifier::external_body]
fn append_str(s: &mut String, t: &str)
    ensures
        final(s)@ == old(s)@ + t@,
{
    s.push_str(t)
}

/// Renders one line for a single pair: both elements in order, each quoted.
pub fn render_line<P: Pair>(p: &P) -> (line: String)
    ensures
        line@ == line_of(p.first_text(), p.second_text()),
{
    let mut out = String::new();
    append_str(&mut out, "\"");
    let f = p.first();
    append_str(&mut out, f.as_text());
    append_str(&mut out, "\" \"");
    let s = p.second();
    append_str(&mut out, s.as_text());
    append_str(&mut out, "\"");
    proof {
        reveal_strlit("\"");
        reveal_strlit("\" \"");
        assert(out@ =~= line_of(p.first_text(), p.second_text()));
    }
    out
}

/// Renders a sequence of pairs: one line per pair, each line containing the
/// pair's two elements in order.
pub fn render_pairs<P: Pair>(pairs: &[P]) -> (lines: Vec<String>)
    ensures
        lines@.len() == pairs@.len(),
        forall|i: int|
            0 <= i < pairs@.len() ==> (#[trigger] lines@[i])@ == line_of(
                pairs@[i].first_text(),
                pairs@[i].second_text(),
            ),
{
    let mut lines: Vec<String> = Vec::new();
    let mut j: usize = 0;
    while j < pairs.len()
        invariant
            j <= pairs@.len(),
            lines@.len() == j,
            forall|i: int|
                0 <= i < j ==> (#[trigger] lines@[i])@ == line_of(
                    pairs@[i].first_text(),
                    pairs@[i].second_text(),
                ),
        decreases pairs@.len() - j,
    {
        lines.push(render_line(&pairs[j]));
        j += 1;
    }
    lines
}

} // verus!
