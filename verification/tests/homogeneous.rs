//! The homogeneous pair implementers: tuples and arrays over every
//! text-like element variant.

use textpair::pair::Pair;
use textpair::text::CowStr;
use textpair::text::TextLike;

#[test]
fn owned_string_tuple() {
    let p: (String, String) = ("A".to_string(), "B".to_string());
    assert_eq!(p.first().as_text(), "A");
    assert_eq!(p.second().as_text(), "B");
}

#[test]
fn static_str_tuple() {
    let p: (&'static str, &'static str) = ("A", "B");
    assert_eq!(p.first().as_text(), "A");
    assert_eq!(p.second().as_text(), "B");
}

#[test]
fn borrowed_str_tuple() {
    let txt = "AB".to_string();
    let p: (&str, &str) = (&txt[..1], &txt[1..]);
    assert_eq!(p.first().as_text(), "A");
    assert_eq!(p.second().as_text(), "B");
}

#[test]
fn cow_tuple() {
    let txt = "AB".to_string();
    let p: (CowStr, CowStr) = (CowStr::Borrowed(&txt[..1]), CowStr::Owned("B".to_string()));
    assert_eq!(p.first().as_text(), "A");
    assert_eq!(p.second().as_text(), "B");
}

#[test]
fn string_array() {
    let p: [String; 2] = ["ab".to_string(), "cd".to_string()];
    assert_eq!(p.first().as_text(), "ab");
    assert_eq!(p.second().as_text(), "cd");
}

#[test]
fn str_array() {
    let p: [&str; 2] = ["one", "two"];
    assert_eq!(p.first().as_text(), "one");
    assert_eq!(p.second().as_text(), "two");
}

#[test]
fn unequal_length_elements() {
    let p = ("foo".to_string(), "quintet".to_string());
    assert_eq!(p.first().as_text(), "foo");
    assert_eq!(p.second().as_text(), "quintet");
}

#[test]
fn empty_elements() {
    let p = ("", "");
    assert_eq!(p.first().as_text(), "");
    assert_eq!(p.second().as_text(), "");
}
