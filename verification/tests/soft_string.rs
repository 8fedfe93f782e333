use std::str::FromStr;

use soft_ascii_string::SoftAsciiChar;
use soft_ascii_string::SoftAsciiStr;
use soft_ascii_string::SoftAsciiString;

const SOME_NOT_ASCII: &str = "malformed←";
const SOME_ASCII: &str = "hy there";

#[test]
fn from_unchecked() {
    let sas = SoftAsciiString::from_unchecked(SOME_ASCII.to_string());
    assert_eq!(sas.as_str(), SOME_ASCII);
    let sas = SoftAsciiString::from_unchecked(SOME_NOT_ASCII.to_string());
    assert_eq!(sas.as_str(), SOME_NOT_ASCII);
}

#[test]
fn from_string() {
    let sas: SoftAsciiString = SoftAsciiString::from_string(SOME_ASCII.to_string()).unwrap();
    assert_eq!(sas.as_str(), SOME_ASCII);
    let sas: SoftAsciiString = SoftAsciiString::from_string(SOME_ASCII.to_owned()).unwrap();
    assert_eq!(sas.as_str(), SOME_ASCII);
    let failed: String = SoftAsciiString::from_string(SOME_NOT_ASCII.to_owned())
        .unwrap_err()
        .into_source();
    assert_eq!(&*failed, SOME_NOT_ASCII);
}

#[test]
fn buffer() {
    let mut sas = SoftAsciiString::from_string(SOME_ASCII.to_string()).unwrap();
    {
        let b: &String = sas.inner_string();
        assert_eq!(b, &String::from(SOME_ASCII));
    }
    {
        let b: &mut String = sas.inner_string_mut();
        assert_eq!(b, &mut String::from(SOME_ASCII));
    }
}

#[test]
fn revalidate_soft_constraint() {
    let sas: SoftAsciiString = SoftAsciiString::from_unchecked(SOME_ASCII.to_string());
    assert!(sas.revalidate_soft_constraint().is_ok());

    let bad: SoftAsciiString = SoftAsciiString::from_unchecked(SOME_NOT_ASCII.to_string());
    assert!(bad.revalidate_soft_constraint().is_err());
}

#[test]
fn has_into_vec_u8() {
    let sas = SoftAsciiString::from_unchecked("test".to_string());
    let v: Vec<u8> = sas.into_bytes();
    assert_eq!(v.as_slice(), b"test" as &[u8]);
}

#[test]
fn has_into_string() {
    let sas = SoftAsciiString::from_unchecked("test".to_string());
    let v: String = sas.into_string();
    assert_eq!(v, "test");
}

#[test]
fn str_eq_string() {
    let slice = SoftAsciiStr::from_str("hy").unwrap();
    let string = SoftAsciiString::from_string("hy".to_string()).unwrap();

    assert_eq!(slice, slice);
    assert_eq!(slice, string);
    assert_eq!(string, slice);
    assert_eq!(string, string);
}

#[test]
fn from_str() {
    let s: SoftAsciiString = FromStr::from_str("hy ho").unwrap();
    assert_eq!(s, "hy ho");
    assert!("↓".parse::<SoftAsciiString>().is_err());
}

#[test]
fn ascii_round_trip() {
    let wrapper = SoftAsciiString::from_string(SOME_ASCII.to_string()).unwrap();
    assert_eq!(wrapper.as_str(), SOME_ASCII);
    let plain: String = wrapper.into_string();
    assert_eq!(plain, SOME_ASCII);
    let again = SoftAsciiString::from_unchecked(plain);
    assert_eq!(again.as_bytes(), SOME_ASCII.as_bytes());
}

#[test]
fn rejection_keeps_source_exactly() {
    let source = SOME_NOT_ASCII.to_string();
    let err = SoftAsciiString::from_string(source.clone()).unwrap_err();
    assert_eq!(err.source(), &source);
    let recovered = err.into_source();
    assert_eq!(recovered, source);
    assert_eq!(recovered.len(), SOME_NOT_ASCII.len());
}

#[test]
fn escape_and_recovery() {
    let bad = SoftAsciiString::from_unchecked(SOME_NOT_ASCII.to_string());
    let raw = bad.revalidate_soft_constraint().unwrap_err();
    assert_eq!(raw, SOME_NOT_ASCII);

    let good = SoftAsciiString::from_unchecked(SOME_ASCII.to_string());
    let again = good.revalidate_soft_constraint().unwrap();
    assert_eq!(again.as_str(), SOME_ASCII);
}

#[test]
fn escape_hatch_then_revalidate() {
    let mut sas = SoftAsciiString::from_string("plain".to_string()).unwrap();
    sas.inner_string_mut().push('←');
    assert!(!sas.is_ascii());
    let raw = sas.revalidate_soft_constraint().unwrap_err();
    assert_eq!(raw, "plain←");
}

#[test]
fn mutation_concatenates_in_order() {
    let mut sas = SoftAsciiString::new();
    sas.push(SoftAsciiChar::from_char('h').unwrap());
    let tail = SoftAsciiStr::from_str("y th").unwrap();
    sas.push_str(&tail);
    let other = SoftAsciiString::from_string("ere".to_string()).unwrap();
    sas.push_str(&other.as_soft_ascii_str());
    assert_eq!(sas.as_str(), "hy there");
    assert_eq!(sas.as_bytes(), b"hy there" as &[u8]);
}

#[test]
fn split_off_partitions_content() {
    for at in 0..=SOME_ASCII.len() {
        let mut left = SoftAsciiString::from_string(SOME_ASCII.to_string()).unwrap();
        assert!(left.is_char_boundary(at));
        let right = left.split_off(at);
        assert_eq!(left.as_str(), &SOME_ASCII[..at]);
        assert_eq!(right.as_str(), &SOME_ASCII[at..]);
        let mut joined = left.into_string();
        joined.push_str(right.as_str());
        assert_eq!(joined, SOME_ASCII);
    }
}

#[test]
fn split_off_multibyte_content() {
    let mut left = SoftAsciiString::from_unchecked("a←b".to_string());
    let right = left.split_off(1);
    assert_eq!(left.as_str(), "a");
    assert_eq!(right.as_str(), "←b");
}

#[test]
fn pop_and_remove() {
    let mut sas = SoftAsciiString::from_string("abc".to_string()).unwrap();
    let c = sas.pop().unwrap();
    assert_eq!(c.to_char(), 'c');
    assert_eq!(sas.as_str(), "ab");

    let r = sas.remove(0);
    assert_eq!(r.to_char(), 'a');
    assert_eq!(sas.as_str(), "b");

    let mut empty = SoftAsciiString::new();
    assert!(empty.pop().is_none());
}

#[test]
fn insert_positions() {
    let mut sas = SoftAsciiString::from_string("ac".to_string()).unwrap();
    sas.insert(1, SoftAsciiChar::from_char('b').unwrap());
    assert_eq!(sas.as_str(), "abc");

    let mid = SoftAsciiStr::from_str("xy").unwrap();
    sas.insert_str(3, &mid);
    assert_eq!(sas.as_str(), "abcxy");
    sas.insert_str(0, &mid);
    assert_eq!(sas.as_str(), "xyabcxy");
}

#[test]
fn truncate_and_clear() {
    let mut sas = SoftAsciiString::from_string("hello".to_string()).unwrap();
    sas.truncate(2);
    assert_eq!(sas.as_str(), "he");
    sas.truncate(10);
    assert_eq!(sas.as_str(), "he");
    sas.clear();
    assert!(sas.is_empty());
    assert_eq!(sas.len(), 0);
}

#[test]
fn with_capacity_is_empty() {
    let sas = SoftAsciiString::with_capacity(16);
    assert!(sas.is_empty());
    assert_eq!(sas.len(), 0);
    assert_eq!(sas.as_str(), "");
}

#[test]
fn index_range_views() {
    let sas = SoftAsciiString::from_string(SOME_ASCII.to_string()).unwrap();
    let view = sas.index_range(3, 8);
    assert_eq!(view.as_str(), "there");
    let all = sas.index_range(0, sas.len());
    assert_eq!(all.as_str(), SOME_ASCII);
    let none = sas.index_range(2, 2);
    assert!(none.is_empty());
}

#[test]
fn into_boxed_str_keeps_text() {
    let sas = SoftAsciiString::from_string("abc".to_string()).unwrap();
    let boxed: Box<str> = sas.into_boxed_str();
    assert_eq!(&*boxed, "abc");
}

#[test]
fn from_chars_in_order() {
    let chars = vec![
        SoftAsciiChar::from_char('o').unwrap(),
        SoftAsciiChar::from_char('k').unwrap(),
    ];
    let sas = SoftAsciiString::from_chars(&chars);
    assert_eq!(sas.as_str(), "ok");
}

#[test]
fn extend_appends_in_order() {
    let mut sas = SoftAsciiString::from_string("a".to_string()).unwrap();
    let chars = vec![
        SoftAsciiChar::from_char('b').unwrap(),
        SoftAsciiChar::from_char('c').unwrap(),
    ];
    sas.extend(&chars);
    assert_eq!(sas.as_str(), "abc");
}

#[test]
fn cross_type_equality_both_orders() {
    let wrapper = SoftAsciiString::from_string("abc".to_string()).unwrap();
    let other = SoftAsciiString::from_string("abc".to_string()).unwrap();
    let plain: String = "abc".to_string();
    let slice: &str = "abc";

    assert_eq!(wrapper, plain);
    assert_eq!(plain, wrapper);
    assert_eq!(wrapper, slice);
    assert_eq!(slice, wrapper);
    assert_eq!(wrapper, other);

    let unequal: String = "abd".to_string();
    assert_ne!(wrapper, unequal);
    assert_ne!(unequal, wrapper);
}

#[test]
fn concrete_scenario() {
    let ok = SoftAsciiString::from_string("hy there".to_string()).unwrap();
    assert_eq!(ok.as_str(), "hy there");

    let arg = format!("{}{}", "malformed", '←');
    let err = SoftAsciiString::from_string(arg.clone()).unwrap_err();
    assert_eq!(err.into_source(), arg);
}

#[test]
fn capacity_delegations() {
    let mut sas = SoftAsciiString::from_string("abc".to_string()).unwrap();
    assert!(sas.capacity() >= sas.len());
    sas.reserve(100);
    assert!(sas.capacity() >= 103);
    assert_eq!(sas.as_str(), "abc");
    sas.reserve_exact(50);
    assert_eq!(sas.as_str(), "abc");
    sas.shrink_to_fit();
    assert_eq!(sas.as_str(), "abc");
    assert!(sas.capacity() >= 3);
}

#[test]
fn default_is_empty() {
    let sas = SoftAsciiString::default();
    assert!(sas.is_empty());
    assert_eq!(sas, SoftAsciiString::new());
}

#[test]
fn parse_empty_is_ok() {
    let sas = SoftAsciiString::from_text("").unwrap();
    assert!(sas.is_empty());
    assert!(sas.is_ascii());
}
