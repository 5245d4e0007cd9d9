use premium::line::{Error, Line, Line15, Line255, Line31, Line63};
use std::collections::{BTreeMap, HashMap};
use std::fmt::Write;
use std::hash::Hasher;
use std::str::FromStr;

#[test]
fn basics() {
    let mut line = Line15::new();
    line.push_str(&format!("{}", 1.5)).unwrap();
    assert_eq!("1.5", line);
    assert!("1.6" > line);
    let mut line2 = Line255::new();
    line2.push_str(&format!("{:?}", line.as_str())).unwrap();
    assert_eq!(line2, "\"1.5\"");
    assert_eq!(line.clone(), line);
    let line3 = Line31::from_str(&line2).unwrap();
    assert_eq!(line2, line3);
    assert!(Line15::from_str("b").unwrap() > Line63::from_str("a").unwrap());
    assert_eq!(Line15::from_str("a").unwrap().as_bytes(), &[b'a']);
}

#[test]
fn maps() {
    let mut m = HashMap::new();
    m.insert(Line15::from_str("test").unwrap(), 1234);
    m.insert("elite".try_into().unwrap(), 1337);
    assert_eq!(m.get("test"), Some(&1234));
    let mut m = BTreeMap::new();
    m.insert(Line15::from_str("test").unwrap(), 1234);
    assert_eq!(m.get("test"), Some(&1234));
}

#[test]
fn push_str_fills_to_capacity_and_no_further() {
    let mut line: Line<4> = Line::new();
    assert_eq!(line.capacity(), 4);
    assert_eq!(line.push_str("ab"), Ok(()));
    assert_eq!(line.push_str("cd"), Ok(()));
    assert_eq!(line.as_str(), "abcd");
    assert_eq!(line.push_str("e"), Err(Error::NoSpace));
    assert_eq!(line.as_str(), "abcd");
    assert_eq!(line.push_str(""), Ok(()));
}

fn hashed<T: std::hash::Hash + ?Sized>(value: &T) -> u64 {
    let mut hasher = std::collections::hash_map::DefaultHasher::new();
    value.hash(&mut hasher);
    hasher.finish()
}

#[test]
fn new_line_is_empty() {
    let line = Line15::new();
    assert_eq!(line.as_str(), "");
    assert_eq!(line.capacity(), 15);
    assert_eq!(Line255::new().capacity(), 255);
    let none: Line<0> = Line::new();
    assert_eq!(none.as_str(), "");
    assert_eq!(none.capacity(), 0);
}

#[test]
fn push_str_takes_all_or_nothing() {
    let mut line: Line<4> = Line::new();
    assert_eq!(line.push_str("abc"), Ok(()));
    assert_eq!(line.push_str("de"), Err(Error::NoSpace));
    assert_eq!(line.as_str(), "abc");
    assert_eq!(line.push_str("d"), Ok(()));
    assert_eq!(line.as_str(), "abcd");
    let mut none: Line<0> = Line::new();
    assert_eq!(none.push_str(""), Ok(()));
    assert_eq!(none.push_str("a"), Err(Error::NoSpace));
}

#[test]
fn push_str_counts_bytes() {
    let mut line: Line<4> = Line::new();
    assert_eq!(line.push_str("€"), Ok(()));
    assert_eq!(line.as_str(), "€");
    assert_eq!(line.as_bytes(), &[0xe2, 0x82, 0xac]);
    assert_eq!(line.push_str("ä"), Err(Error::NoSpace));
    assert_eq!(line.push_str("a"), Ok(()));
    assert_eq!(line.as_str(), "€a");
    assert_eq!(line.chars().count(), 2);
}

#[test]
fn line_of_255_bytes() {
    let text = "x".repeat(255);
    let mut line = Line255::from_str(&text).unwrap();
    assert_eq!(line.as_str(), text);
    assert_eq!(line.push_str("y"), Err(Error::NoSpace));
    assert!(Line255::from_str(&"x".repeat(256)).is_err());
}

#[test]
fn clear_empties_the_line() {
    let mut line = Line15::from_str("hello").unwrap();
    line.clear();
    assert_eq!(line.as_str(), "");
    assert_eq!(line, Line15::new());
    assert_eq!(line.cmp(&Line15::new()), std::cmp::Ordering::Equal);
    assert_eq!(hashed(&line), hashed(&Line15::new()));
    assert_eq!(line.push_str("0123456789abcde"), Ok(()));
    assert_eq!(line.as_str(), "0123456789abcde");
    line.clear();
    assert_eq!(line.push_str("ab"), Ok(()));
    assert_eq!(line, Line15::from_str("ab").unwrap());
    assert_eq!(line.cmp(&Line15::from_str("ab").unwrap()), std::cmp::Ordering::Equal);
}

#[test]
fn from_str_fails_where_the_text_does_not_fit() {
    assert_eq!(Line::<3>::from_str("abc").unwrap().as_str(), "abc");
    assert_eq!(Line::<3>::from_str("abcd").err(), Some(Error::NoSpace));
    assert_eq!(Line::<3>::try_from("abcd").err(), Some(Error::NoSpace));
    assert_eq!(Line::<3>::try_from("ab").unwrap().as_str(), "ab");
}

#[test]
fn error_says_what_went_wrong() {
    assert_eq!(Error::NoSpace.message(), "not enough capacity");
}

#[test]
fn clone_holds_the_same_text() {
    let line = Line31::from_str("copy me").unwrap();
    let mut copy = line.clone();
    assert_eq!(copy.as_str(), "copy me");
    copy.push_str("!").unwrap();
    assert_eq!(line.as_str(), "copy me");
    assert_eq!(copy.as_str(), "copy me!");
}

#[test]
fn lines_are_equal_where_their_texts_are() {
    let a = Line15::from_str("same").unwrap();
    let b = Line63::from_str("same").unwrap();
    let c = Line63::from_str("other").unwrap();
    assert!(a == b);
    assert!(a != c);
    assert!(a == *"same");
    assert!(a == "same");
    assert!("same" == a);
    assert!(*"same" == a);
    assert!(a != "sam");
    assert!(a != "same ");
    assert!(Line15::new() == "");
}

#[test]
fn lines_are_ordered_as_their_texts_are() {
    let texts = ["", "a", "a\0", "ab", "abc", "b", "B", "ä", "z", "€", "a€", "\u{7f}", "\0"];
    for s in texts {
        for t in texts {
            let a = Line15::from_str(s).unwrap();
            let b = Line15::from_str(t).unwrap();
            let c = Line31::from_str(t).unwrap();
            assert_eq!(a.cmp(&b), s.cmp(t), "{s:?} and {t:?}");
            assert_eq!(a.partial_cmp(&b), Some(s.cmp(t)), "{s:?} and {t:?}");
            assert_eq!(a.partial_cmp(&c), Some(s.cmp(t)), "{s:?} and {t:?}");
            assert_eq!(a.partial_cmp(t), Some(s.cmp(t)), "{s:?} and {t:?}");
            assert_eq!(a.partial_cmp(&t), Some(s.cmp(t)), "{s:?} and {t:?}");
            assert_eq!(s.partial_cmp(&b), Some(s.cmp(t)), "{s:?} and {t:?}");
            assert_eq!(a == b, s == t, "{s:?} and {t:?}");
            assert_eq!(a == c, s == t, "{s:?} and {t:?}");
        }
    }
}

#[test]
fn line_hashes_as_its_text_does() {
    for s in ["", "test", "elite", "€", "a\0"] {
        assert_eq!(hashed(&Line15::from_str(s).unwrap()), hashed(s), "{s:?}");
    }
    assert_ne!(hashed(&Line15::from_str("test").unwrap()), hashed("tset"));
}

#[test]
fn line_is_read_as_a_str() {
    let line = Line15::from_str("Hello").unwrap();
    assert_eq!(line.len(), 5);
    assert_eq!(line.to_uppercase(), "HELLO");
    let text: &str = line.as_ref();
    assert_eq!(text, "Hello");
    let text: &str = std::borrow::Borrow::borrow(&line);
    assert_eq!(text, "Hello");
    let text: &str = &line;
    assert_eq!(text, "Hello");
}

#[test]
fn line_is_written_to() {
    let mut line: Line<6> = Line::new();
    assert_eq!(line.write_str("abc"), Ok(()));
    assert_eq!(line.write_char('d'), Ok(()));
    assert_eq!(line.write_str("efg"), Err(std::fmt::Error));
    assert_eq!(line.as_str(), "abcd");
    assert_eq!(line.write_str("42"), Ok(()));
    assert_eq!(line.as_str(), "abcd42");
}
