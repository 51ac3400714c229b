use nom::{ErrorKind, IResult, Needed};
use nom_config::primitives::{config_read, lift_config, rewrap};
use nom_config::replace::{replace_test, replace_tests};
use nom_config::Configured;

#[derive(Debug, Clone, Copy, PartialEq)]
struct TestConfig(&'static [u8]);

fn bytes(s: &'static str) -> &'static [u8] {
    s.as_bytes()
}

#[test]
fn it_works() {
    let it = replace_test(Configured::new(&b"\x00"[..], &b"test"[..]));
    assert_eq!(it.unwrap().1, b"\x00");

    let it = replace_tests(Configured::new(&b"\x00"[..], &b"testskiptest"[..]));
    assert_eq!(it.unwrap().1, vec!["\x00".as_bytes(), "skip".as_bytes(), "\x00".as_bytes()]);
}

#[test]
fn end_to_end_replaces_test_and_keeps_skip() {
    let r = replace_tests(Configured::new(bytes("TEST"), bytes("testskiptest")));
    let (rest, out) = r.unwrap();
    assert_eq!(out, vec![bytes("TEST"), bytes("skip"), bytes("TEST")]);
    assert_eq!(rest.input_len(), 0);
    assert_eq!(*rest.config(), bytes("TEST"));
}

#[test]
fn failure_of_bare_parser_passes_through_unchanged() {
    let direct = nom::tag_cl(b"skip")(bytes("XXXX"));
    let lifted = lift_config(Configured::new(bytes("TEST"), bytes("XXXX")), nom::tag_cl(b"skip"));
    match (direct, lifted) {
        (IResult::Error(a), IResult::Error(b)) => {
            assert_eq!(a, b);
            assert_eq!(b, ErrorKind::TagClosure);
        }
        _ => panic!("both calls should fail"),
    }
}

#[test]
fn grammar_stops_before_unknown_bytes() {
    let r = replace_tests(Configured::new(bytes("TEST"), bytes("testXXXX")));
    let (rest, out) = r.unwrap();
    assert_eq!(out, vec![bytes("TEST")]);
    assert_eq!(*rest.input(), bytes("XXXX"));
    assert_eq!(*rest.config(), bytes("TEST"));
}

#[test]
fn grammar_on_empty_input_gives_nothing() {
    let r = replace_tests(Configured::new(bytes("TEST"), bytes("")));
    let (rest, out) = r.unwrap();
    assert!(out.is_empty());
    assert_eq!(rest.input_len(), 0);
}

#[test]
fn replace_test_rejects_other_words() {
    let r = replace_test(Configured::new(bytes("TEST"), bytes("tesx")));
    assert_eq!(r, IResult::Error(ErrorKind::TagClosure));
    let r = replace_test(Configured::new(bytes("TEST"), bytes("tes")));
    assert!(r.is_err());
}

#[test]
fn replace_test_leaves_what_follows() {
    let r = replace_test(Configured::new(bytes("TEST"), bytes("testmore")));
    let (rest, out) = r.unwrap();
    assert_eq!(out, bytes("TEST"));
    assert_eq!(*rest.input(), bytes("more"));
}

#[test]
fn lift_keeps_configuration() {
    let cfg = TestConfig(b"cfg");
    let r = lift_config(Configured::new(cfg, bytes("testtail")), nom::tag_cl(b"test"));
    let (rest, out) = r.unwrap();
    assert_eq!(out, bytes("test"));
    assert_eq!(*rest.config(), cfg);
    assert_eq!(*rest.input(), bytes("tail"));
}

#[test]
fn equality_ignores_configuration() {
    let a = Configured::new(TestConfig(b"one"), bytes("abc"));
    let b = Configured::new(TestConfig(b"two"), bytes("abc"));
    assert!(a == b);
    let c = Configured::new(TestConfig(b"one"), bytes("abd"));
    assert!(a != c);
    let d = Configured::new(TestConfig(b"one"), bytes("ab"));
    assert!(a != d);
}

#[test]
fn slicing_keeps_configuration() {
    let w = Configured::new(TestConfig(b"cfg"), bytes("abcdef"));
    let from = w.slice_from(2);
    assert_eq!(*from.input(), bytes("cdef"));
    assert_eq!(*from.config(), TestConfig(b"cfg"));
    let to = w.slice_to(3);
    assert_eq!(*to.input(), bytes("abc"));
    assert_eq!(*to.config(), TestConfig(b"cfg"));
    let mid = w.slice_range(1, 4);
    assert_eq!(*mid.input(), bytes("bcd"));
    assert_eq!(*mid.config(), TestConfig(b"cfg"));
    let empty = w.slice_from(6);
    assert_eq!(empty.input_len(), 0);
}

#[test]
fn config_read_consumes_nothing() {
    let w = Configured::new(TestConfig(b"cfg"), bytes("abc"));
    let r: IResult<_, _, u32> = config_read(w);
    let (rest, c) = r.unwrap();
    assert_eq!(c, TestConfig(b"cfg"));
    assert_eq!(*rest.input(), bytes("abc"));
    assert_eq!(*rest.config(), TestConfig(b"cfg"));
}

#[test]
fn nested_call_matches_direct_call() {
    let lifted = lift_config(Configured::new(bytes("TEST"), bytes("skiptest")), nom::tag_cl(b"skip"));
    let (rest, _) = lifted.unwrap();
    let by_hand = Configured::new(bytes("TEST"), bytes("test"));
    assert_eq!(*rest.config(), *by_hand.config());
    assert_eq!(replace_test(rest), replace_test(by_hand));
}

#[test]
fn rewrap_passes_incomplete_and_error() {
    let r: IResult<Configured<TestConfig, &[u8]>, u8> =
        rewrap(TestConfig(b"c"), IResult::Incomplete(Needed::Size(3)));
    assert_eq!(r, IResult::Incomplete(Needed::Size(3)));
    let r: IResult<Configured<TestConfig, &[u8]>, u8> =
        rewrap(TestConfig(b"c"), IResult::Error(ErrorKind::Tag));
    assert_eq!(r, IResult::Error(ErrorKind::Tag));
    let r: IResult<Configured<TestConfig, &[u8]>, u8> = rewrap(TestConfig(b"c"), IResult::Done(bytes("xy"), 7));
    let (rest, o) = r.unwrap();
    assert_eq!(o, 7);
    assert_eq!(*rest.config(), TestConfig(b"c"));
    assert_eq!(*rest.input(), bytes("xy"));
}

#[test]
fn parts_come_back_unchanged() {
    let w = Configured::new(TestConfig(b"cfg"), bytes("abc"));
    let (c, i) = w.into_parts();
    assert_eq!(c, TestConfig(b"cfg"));
    assert_eq!(i, bytes("abc"));
}

#[test]
fn length_bytes_and_index() {
    let w = Configured::new(TestConfig(b"cfg"), bytes("abc"));
    assert_eq!(w.input_len(), 3);
    assert_eq!(w.as_bytes(), bytes("abc"));
    assert_eq!(w.slice_index(2), Some(2));
    assert_eq!(w.slice_index(3), Some(3));
    assert_eq!(w.slice_index(4), None);
}

#[test]
fn position_finds_first_match() {
    let w = Configured::new(TestConfig(b"cfg"), bytes("ab1c2"));
    assert_eq!(w.position(|b| b.is_ascii_digit()), Some(2));
    assert_eq!(w.position(|b| b == b'z'), None);
    let e = Configured::new(TestConfig(b"cfg"), bytes(""));
    assert_eq!(e.position(|_| true), None);
}

#[test]
fn clone_and_copy_keep_both_fields() {
    let w = Configured::new(TestConfig(b"cfg"), bytes("abc"));
    let c = w.clone();
    let d = w;
    assert_eq!(*c.config(), *d.config());
    assert_eq!(*c.input(), *w.input());
    assert!(format!("{:?}", w).contains("config"));
}
