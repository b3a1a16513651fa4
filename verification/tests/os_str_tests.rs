use pal::os_str::OsStr;
use pal::os_str::OsString;
use std::cmp::Ordering;
use std::rc::Rc;
use std::sync::Arc;

#[test]
fn test_os_string_with_capacity() {
    let os_string = OsString::with_capacity(0);
    assert_eq!(0, os_string.capacity());

    let os_string = OsString::with_capacity(10);
    assert_eq!(10, os_string.capacity());

    let mut os_string = OsString::with_capacity(0);
    os_string.push(&OsStr::new("abc"));
    assert!(os_string.capacity() >= 3);
}

#[test]
fn test_os_string_clear() {
    let mut os_string = OsString::from("abc");
    assert_eq!(3, os_string.len());

    os_string.clear();
    assert!(os_string.eq_str(""));
    assert_eq!(0, os_string.len());
}

#[test]
fn test_os_string_capacity() {
    let os_string = OsString::with_capacity(0);
    assert_eq!(0, os_string.capacity());

    let os_string = OsString::with_capacity(10);
    assert_eq!(10, os_string.capacity());

    let mut os_string = OsString::with_capacity(0);
    os_string.push(&OsStr::new("abc"));
    assert!(os_string.capacity() >= 3);
}

#[test]
fn test_os_string_reserve() {
    let mut os_string = OsString::new();
    assert_eq!(os_string.capacity(), 0);

    os_string.reserve(2);
    assert!(os_string.capacity() >= 2);

    for _ in 0..16 {
        os_string.push(&OsStr::new("a"));
    }

    assert!(os_string.capacity() >= 16);
    os_string.reserve(16);
    assert!(os_string.capacity() >= 32);

    os_string.push(&OsStr::new("a"));

    os_string.reserve(16);
    assert!(os_string.capacity() >= 33)
}

#[test]
fn test_os_string_reserve_exact() {
    let mut os_string = OsString::new();
    assert_eq!(os_string.capacity(), 0);

    os_string.reserve_exact(2);
    assert!(os_string.capacity() >= 2);

    for _ in 0..16 {
        os_string.push(&OsStr::new("a"));
    }

    assert!(os_string.capacity() >= 16);
    os_string.reserve_exact(16);
    assert!(os_string.capacity() >= 32);

    os_string.push(&OsStr::new("a"));

    os_string.reserve_exact(16);
    assert!(os_string.capacity() >= 33)
}

#[test]
fn test_os_string_default() {
    let os_string: OsString = Default::default();
    assert!(os_string.eq_str(""));
}

#[test]
fn test_os_str_is_empty() {
    let mut os_string = OsString::new();
    assert!(os_string.is_empty());

    os_string.push(&OsStr::new("abc"));
    assert!(!os_string.is_empty());

    os_string.clear();
    assert!(os_string.is_empty());
}

#[test]
fn test_os_str_len() {
    let mut os_string = OsString::new();
    assert_eq!(0, os_string.len());

    os_string.push(&OsStr::new("abc"));
    assert_eq!(3, os_string.len());

    os_string.clear();
    assert_eq!(0, os_string.len());
}

#[test]
fn test_os_str_default() {
    let os_str: OsStr = Default::default();
    assert!(os_str.eq_str(""));
}

#[test]
fn into_boxed() {
    let orig = "Hello, world!";
    let os_str = OsStr::new(orig);
    let boxed: Box<OsStr> = os_str.to_os_string().into_boxed_os_str();
    let os_string = os_str.to_os_string().into_boxed_os_str().into_os_string();
    assert_eq!(os_str, *boxed);
    assert_eq!(*boxed, *os_string.as_os_str());
    assert_eq!(*os_string.as_os_str(), os_str);
}

#[test]
fn boxed_default() {
    let boxed = <Box<OsStr>>::default();
    assert!(boxed.is_empty());
}

#[test]
fn test_os_str_clone_into() {
    let mut os_string = OsString::with_capacity(123);
    os_string.push(&OsStr::new("hello"));
    let os_str = OsStr::new("bonjour");
    os_str.clone_into(&mut os_string);
    assert_eq!(os_str, *os_string.as_os_str());
    assert!(os_string.capacity() >= 123);
}

#[test]
fn into_rc() {
    let orig = "Hello, world!";
    let os_str = OsStr::new(orig);
    let rc: Rc<OsStr> = os_str.to_os_string().into_rc();
    let arc: Arc<OsStr> = os_str.to_os_string().into_arc();

    assert_eq!(*rc, os_str);
    assert_eq!(*arc, os_str);

    let rc2: Rc<OsStr> = os_str.to_os_string().into_rc();
    let arc2: Arc<OsStr> = os_str.to_os_string().into_arc();

    assert_eq!(*rc2, os_str);
    assert_eq!(*arc2, os_str);
}

#[test]
fn from_owned_string_round_trip() {
    let os_string = OsString::from_string(String::from("owned ünïcode"));
    assert_eq!(os_string.len(), 15);
    assert!(os_string.eq_str("owned ünïcode"));
    assert_eq!(os_string.into_string(), Ok(String::from("owned ünïcode")));
}

#[test]
fn amortized_growth_exact_steps() {
    // The capacity hint doubles when exceeded and never falls below
    // what is needed.
    let mut os_string = OsString::with_capacity(0);
    os_string.push(&OsStr::new("abc"));
    assert_eq!(os_string.capacity(), 3);
    os_string.push(&OsStr::new("d"));
    assert_eq!(os_string.capacity(), 6);
    os_string.push(&OsStr::new("efg"));
    assert_eq!(os_string.capacity(), 12);
    os_string.push(&OsStr::new("hijklmnopqrstuvwxyz"));
    assert_eq!(os_string.capacity(), 26);
    assert_eq!(os_string.len(), 26);
}

#[test]
fn round_trip_unicode() {
    let os_string = OsString::from("héllo wörld ✓");
    assert_eq!(os_string.into_string(), Ok(String::from("héllo wörld ✓")));

    let os_string = OsString::from("");
    assert_eq!(os_string.into_string(), Ok(String::new()));
}

#[test]
fn into_string_failure_returns_original() {
    let os_str = OsStr::from_bytes(&[0x66, 0x6f, 0xff]);
    let os_string = os_str.to_os_string();
    let back = os_string.into_string();
    match back {
        Ok(_) => panic!("invalid bytes must not decode"),
        Err(e) => assert_eq!(e.as_os_str().as_bytes(), &[0x66, 0x6f, 0xff]),
    }
}

#[test]
fn to_str_validity() {
    let os_str = OsStr::new("foo");
    assert_eq!(os_str.to_str(), Some("foo"));

    let bad = OsStr::from_bytes(&[0x80]);
    assert_eq!(bad.to_str(), None);
}

#[test]
fn lossy_never_fails() {
    let os_str = OsStr::new("foo");
    assert_eq!(os_str.to_string_lossy(), "foo");

    let bad = OsStr::from_bytes(&[0x66, 0x6f, 0xff]);
    assert_eq!(bad.to_string_lossy(), "fo\u{FFFD}");

    let worse = OsStr::from_bytes(&[0xff, 0xfe, 0x61]);
    assert_eq!(worse.to_string_lossy(), "\u{FFFD}\u{FFFD}a");
}

#[test]
fn byte_wise_ordering() {
    let a = OsStr::new("abc");
    let b = OsStr::new("abd");
    assert!(a < b);
    assert!(b > a);
    assert_eq!(a.cmp(&b), Ordering::Less);

    // A proper prefix orders first.
    let p = OsStr::new("ab");
    assert!(p < a);
    assert_eq!(p.cmp(&a), Ordering::Less);

    // Ordering is over raw bytes, whether or not either side decodes.
    let invalid = OsStr::from_bytes(&[0xff]);
    let z = OsStr::new("z");
    assert!(z < invalid);
    assert_eq!(invalid.cmp(&z), Ordering::Greater);
    assert_eq!(invalid.cmp(&OsStr::from_bytes(&[0xff])), Ordering::Equal);

    let sa = OsString::from("abc");
    let sb = OsString::from("abd");
    assert!(sa < sb);
    assert_eq!(sa.cmp(&sb), Ordering::Less);
    assert_eq!(sa, OsString::from("abc"));
    assert_ne!(sa, sb);
}

#[test]
fn unicode_comparison_converts_to_native() {
    // U+00FF encodes as two bytes; the raw byte 0xFF is not its native
    // form, so they must not compare equal.
    let y = OsStr::new("ÿ");
    assert!(y.eq_str("ÿ"));
    let raw = OsStr::from_bytes(&[0xff]);
    assert!(!raw.eq_str("ÿ"));
    assert!(OsStr::from_bytes(&[0xc3, 0xbf]).eq_str("ÿ"));
}

#[test]
fn growth_under_repeated_append() {
    let mut os_string = OsString::new();
    for _ in 0..40 {
        os_string.push(&OsStr::new("x"));
    }
    assert_eq!(os_string.len(), 40);
    assert!(os_string.capacity() >= 40);
}

#[test]
fn shrink_to_fit_matches_len() {
    let mut os_string = OsString::from("foo");
    os_string.reserve(100);
    assert!(os_string.capacity() >= 100);
    os_string.shrink_to_fit();
    assert_eq!(3, os_string.capacity());
    assert!(os_string.eq_str("foo"));
}

#[test]
fn reserve_keeps_contents() {
    let mut s = OsString::from("keep");
    s.reserve(50);
    assert!(s.eq_str("keep"));
    s.reserve_exact(80);
    assert!(s.eq_str("keep"));
    assert!(s.capacity() >= 84);
}

#[test]
fn shared_ownership_equivalence() {
    let original = OsString::from("shared content");
    let boxed: Box<OsStr> = original.as_os_str().to_os_string().into_boxed_os_str();
    let rc: Rc<OsStr> = original.as_os_str().to_os_string().into_rc();
    let arc: Arc<OsStr> = original.as_os_str().to_os_string().into_arc();
    assert_eq!(*boxed, *original.as_os_str());
    assert_eq!(*rc, *original.as_os_str());
    assert_eq!(*arc, *original.as_os_str());
    assert_eq!(*boxed, *rc);
    assert_eq!(*rc, *arc);
    assert_eq!(*arc, *boxed);
}

#[test]
fn empty_value_defaults() {
    let owned = OsString::new();
    let borrowed: OsStr = Default::default();
    assert!(owned.is_empty());
    assert!(borrowed.is_empty());
    assert_eq!(*owned.as_os_str(), borrowed);
    assert_eq!(borrowed, OsStr::new(""));
    assert_eq!(owned.into_string(), Ok(String::new()));
}
