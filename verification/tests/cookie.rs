use magic::cookie::{Cookie, OpenFailure, QueryFailure};
use magic::flags;
use magic::flags::CookieFlags;
use magic::marshal::c_string;

/// What the engine has to say after a query: the description it returned and
/// the diagnostic it holds.
type Answer = (Option<&'static [u8]>, Option<&'static [u8]>);

/// Stands in for the engine's query by path, with the answers that libmagic
/// gives to the files of these tests under its stock database. `filename` is
/// the nul-terminated name the engine is handed.
fn engine_file(flags: CookieFlags, filename: &[u8]) -> Answer {
    let mime_type = flags.contains(CookieFlags::mime_type());
    let mime_encoding = flags.contains(CookieFlags::mime_encoding());
    if filename == b"assets/rust-logo-128x128-blk.png\0" {
        match (mime_type, mime_encoding) {
            (false, false) => {
                (Some(b"PNG image data, 128 x 128, 8-bit/color RGBA, non-interlaced"), None)
            }
            (true, false) => (Some(b"image/png"), None),
            (true, true) => (Some(b"image/png; charset=binary"), None),
            (false, true) => (Some(b"binary"), None),
        }
    } else if flags.contains(CookieFlags::error()) {
        (None, Some(b"cannot stat `non-existent_file.txt' (No such file or directory)"))
    } else {
        (Some(b"cannot open `non-existent_file.txt' (No such file or directory)"), None)
    }
}

/// Stands in for the engine's query of a buffer.
fn engine_buffer(flags: CookieFlags, buffer: &[u8]) -> Answer {
    if !buffer.starts_with(b"#!/usr/bin/env python") {
        (Some(b"data"), None)
    } else if flags.contains(CookieFlags::mime_type()) {
        (Some(b"text/plain"), None)
    } else {
        (Some(b"a python script, ASCII text executable"), None)
    }
}

/// Stands in for the engine's loading of a database: the status it returns.
fn engine_load(filename: &[u8]) -> i32 {
    if filename == b"/usr/share/misc/magic\0" {
        0
    } else {
        -1
    }
}

#[test]
fn file() {
    let mut cookie = Cookie::open(CookieFlags::empty(), true).unwrap();
    assert!(cookie.load(engine_load(&c_string(b"/usr/share/misc/magic").unwrap())));

    let path = c_string(b"assets/rust-logo-128x128-blk.png").unwrap();

    let (reply, diagnostic) = engine_file(cookie.flags(), &path);
    assert_eq!(
        cookie.file(reply, diagnostic).unwrap().unwrap().as_str(),
        "PNG image data, 128 x 128, 8-bit/color RGBA, non-interlaced"
    );

    cookie.setflags(CookieFlags::mime_type());
    let (reply, diagnostic) = engine_file(cookie.flags(), &path);
    assert_eq!(cookie.file(reply, diagnostic).unwrap().unwrap().as_str(), "image/png");

    cookie.setflags(CookieFlags::mime_type() | CookieFlags::mime_encoding());
    let (reply, diagnostic) = engine_file(cookie.flags(), &path);
    assert_eq!(
        cookie.file(reply, diagnostic).unwrap().unwrap().as_str(),
        "image/png; charset=binary"
    );
}

#[test]
fn buffer() {
    let mut cookie = Cookie::open(CookieFlags::empty(), true).unwrap();
    assert!(cookie.load(engine_load(&c_string(b"/usr/share/misc/magic").unwrap())));

    let s = b"#!/usr/bin/env python\nprint('Hello, world!')";
    let (reply, diagnostic) = engine_buffer(cookie.flags(), s);
    assert_eq!(
        cookie.buffer(reply, diagnostic).unwrap().unwrap().as_str(),
        "a python script, ASCII text executable"
    );

    cookie.setflags(CookieFlags::mime_type());
    let (reply, diagnostic) = engine_buffer(cookie.flags(), s);
    assert_eq!(cookie.buffer(reply, diagnostic).unwrap().unwrap().as_str(), "text/plain");
}

#[test]
fn file_error() {
    let cookie = Cookie::open(CookieFlags::empty() | CookieFlags::error(), true).unwrap();
    assert!(cookie.load(engine_load(&c_string(b"/usr/share/misc/magic").unwrap())));

    let path = c_string(b"non-existent_file.txt").unwrap();
    let (reply, diagnostic) = engine_file(cookie.flags(), &path);
    let ret = cookie.file(reply, diagnostic);
    assert_eq!(ret.as_ref().ok(), None);
    assert_eq!(
        cookie.error(diagnostic).unwrap().as_str(),
        "cannot stat `non-existent_file.txt' (No such file or directory)"
    );
    assert_eq!(
        ret,
        Err(QueryFailure {
            diagnostic: String::from(
                "cannot stat `non-existent_file.txt' (No such file or directory)"
            ),
        })
    );
}

#[test]
fn a_missing_file_is_described_where_errors_are_not_strict() {
    let mut cookie = Cookie::open(CookieFlags::empty(), true).unwrap();
    cookie.setflags(CookieFlags::empty());
    let path = c_string(b"non-existent_file.txt").unwrap();
    let (reply, diagnostic) = engine_file(cookie.flags(), &path);
    assert_eq!(
        cookie.file(reply, diagnostic),
        Ok(Some(String::from("cannot open `non-existent_file.txt' (No such file or directory)")))
    );
    assert_eq!(cookie.error(diagnostic), None);
}

#[test]
fn load_of_a_missing_database_fails() {
    let cookie = Cookie::open(CookieFlags::empty(), true).unwrap();
    assert!(!cookie.load(engine_load(&c_string(b"/no/such/magic").unwrap())));
}

#[test]
fn open_without_an_instance_fails() {
    assert_eq!(Cookie::open(CookieFlags::empty(), false).err(), Some(OpenFailure));
    assert!(Cookie::open(CookieFlags::mime(), false).is_err());
}

#[test]
fn open_switches_strict_errors_on() {
    assert_eq!(Cookie::open_flags(CookieFlags::empty()).bits(), 0x000200);
    assert_eq!(Cookie::open_flags(CookieFlags::mime_type()).bits(), 0x000210);
    assert_eq!(Cookie::open_flags(CookieFlags::error()), CookieFlags::error());

    let cookie = Cookie::open(CookieFlags::empty(), true).unwrap();
    assert_eq!(cookie.flags(), CookieFlags::error());
    assert!(cookie.flags().contains(CookieFlags::error()));

    let cookie = Cookie::open(CookieFlags::mime() | CookieFlags::symlink(), true).unwrap();
    assert_eq!(cookie.flags().bits(), 0x000612);
    assert_eq!(cookie.flags().bits() & flags::ERROR, flags::ERROR);
}

#[test]
fn setflags_replaces_the_flags_in_effect() {
    let mut cookie = Cookie::open(CookieFlags::debug(), true).unwrap();
    assert_eq!(cookie.flags().bits(), 0x000201);
    cookie.setflags(CookieFlags::mime_type());
    assert_eq!(cookie.flags(), CookieFlags::mime_type());
    cookie.setflags(CookieFlags::empty());
    assert_eq!(cookie.flags(), CookieFlags::empty());
}

#[test]
fn a_description_is_no_failure() {
    let cookie = Cookie::open(CookieFlags::empty(), true).unwrap();
    assert_eq!(cookie.file(Some(b"data"), None), Ok(Some(String::from("data"))));
    assert_eq!(cookie.file(Some(b"data"), Some(b"stale")), Ok(Some(String::from("data"))));
    assert_eq!(cookie.buffer(Some(b""), None), Ok(Some(String::new())));
}

#[test]
fn no_description_and_no_diagnostic_is_no_match() {
    let cookie = Cookie::open(CookieFlags::empty(), true).unwrap();
    assert_eq!(cookie.file(None, None), Ok(None));
    assert_eq!(cookie.buffer(None, None), Ok(None));
    assert_eq!(cookie.descriptor(None, None), Ok(None));
}

#[test]
fn a_diagnostic_is_a_failure_only_under_strict_errors() {
    let mut cookie = Cookie::open(CookieFlags::empty(), true).unwrap();
    assert_eq!(
        cookie.buffer(None, Some(b"no magic files loaded")),
        Err(QueryFailure { diagnostic: String::from("no magic files loaded") })
    );
    cookie.setflags(CookieFlags::mime_type());
    assert_eq!(cookie.buffer(None, Some(b"no magic files loaded")), Ok(None));
    cookie.setflags(CookieFlags::mime_type() | CookieFlags::error());
    assert_eq!(
        cookie.buffer(None, Some(b"no magic files loaded")),
        Err(QueryFailure { diagnostic: String::from("no magic files loaded") })
    );
}

#[test]
fn descriptor_answers_as_the_other_queries_do() {
    let cookie = Cookie::open(CookieFlags::empty(), true).unwrap();
    assert_eq!(
        cookie.descriptor(Some(b"ASCII text"), None),
        Ok(Some(String::from("ASCII text")))
    );
    assert_eq!(
        cookie.descriptor(None, Some(b"cannot read fd 9 (Bad file descriptor)")),
        Err(QueryFailure { diagnostic: String::from("cannot read fd 9 (Bad file descriptor)") })
    );
}

#[test]
fn outcome_decides_from_description_and_diagnostic() {
    let mut cookie = Cookie::open(CookieFlags::empty(), true).unwrap();
    let found = || Some(String::from("image/png"));
    let failed = || Some(String::from("cannot open"));

    assert_eq!(cookie.outcome(found(), None), Ok(found()));
    assert_eq!(cookie.outcome(found(), failed()), Ok(found()));
    assert_eq!(cookie.outcome(None, None), Ok(None));
    assert_eq!(
        cookie.outcome(None, failed()),
        Err(QueryFailure { diagnostic: String::from("cannot open") })
    );

    cookie.setflags(CookieFlags::empty());
    assert_eq!(cookie.outcome(found(), failed()), Ok(found()));
    assert_eq!(cookie.outcome(None, None), Ok(None));
    assert_eq!(cookie.outcome(None, failed()), Ok(None));
}

#[test]
fn error_without_a_failure_is_nothing() {
    let cookie = Cookie::open(CookieFlags::empty(), true).unwrap();
    assert_eq!(cookie.error(None), None);
}

#[test]
fn error_copies_the_diagnostic() {
    let cookie = Cookie::open(CookieFlags::empty(), true).unwrap();
    assert_eq!(
        cookie.error(Some(b"could not find any valid magic files!")),
        Some(String::from("could not find any valid magic files!"))
    );
    assert_eq!(cookie.error(Some(&[b'`', 0xc3, 0x28, b'\''])), Some(String::from("`\u{fffd}('")));
}

#[test]
fn database_operations_succeed_on_status_zero_alone() {
    let cookie = Cookie::open(CookieFlags::empty(), true).unwrap();
    assert!(cookie.load(0));
    assert!(!cookie.load(-1));
    assert!(!cookie.load(1));
    assert!(cookie.compile(0));
    assert!(!cookie.compile(-1));
    assert!(cookie.check(0));
    assert!(!cookie.check(-1));
    assert!(cookie.list(0));
    assert!(!cookie.list(-1));
    assert!(!cookie.list(i32::MIN));
}

#[test]
fn failures_show_what_they_hold() {
    assert_eq!(format!("{:?}", OpenFailure), "OpenFailure");
    let failure = QueryFailure { diagnostic: String::from("x") };
    assert_eq!(failure.diagnostic, "x");
}
