use sfo_kiosk::exchange::{judge, send, Exchange, Next, Outcome, Stage, REPLY_CAP};

fn reading(restarts: bool) -> Exchange {
    let mut x = send("net-vm", 8123, "2026-11-16 09:05", restarts);
    assert!(matches!(x.connected(Ok(())), Next::Write(_)));
    assert!(matches!(x.written(Ok(())), Next::Read(_)));
    x
}

fn why(outcome: Outcome) -> String {
    match outcome {
        Outcome::Failed(why) => why,
        other => panic!("{:?}", other),
    }
}

#[test]
fn a_conversation_that_works() {
    let mut x = send("net-vm", 8123, "2026-11-16 09:05", false);
    assert_eq!(x.host(), "net-vm");
    assert_eq!(x.port(), 8123);
    assert_eq!(x.line(), "2026-11-16 09:05\n");
    assert_eq!(x.stage(), Stage::Connecting);
    match x.connected(Ok(())) {
        Next::Write(bytes) => assert_eq!(bytes, b"2026-11-16 09:05\n"),
        other => panic!("{:?}", other),
    }
    assert_eq!(x.stage(), Stage::Writing);
    match x.written(Ok(())) {
        Next::Read(cap) => assert_eq!(cap, 256),
        other => panic!("{:?}", other),
    }
    assert_eq!(x.stage(), Stage::Reading);
    let mut buf = vec![0u8; REPLY_CAP];
    buf[..3].copy_from_slice(b"ok\n");
    assert!(matches!(x.replied(Ok((&buf, 3))), Outcome::ClockSet));
    assert_eq!(x.stage(), Stage::Over);
}

#[test]
fn success_restarts_as_announced() {
    assert!(matches!(reading(true).replied(Ok((b"ok", 2))), Outcome::Restart));
    assert!(matches!(reading(false).replied(Ok((b"ok", 2))), Outcome::ClockSet));
    assert!(reading(true).restarts());
}

#[test]
fn no_connection() {
    let mut x = send("h", 1, "w", false);
    match x.connected(Err("timed out".to_string())) {
        Next::Finished(end) => assert_eq!(why(end), "Could not reach the clock service: timed out"),
        other => panic!("{:?}", other),
    }
    assert_eq!(x.stage(), Stage::Over);
}

#[test]
fn no_write() {
    let mut x = send("h", 1, "w", true);
    x.connected(Ok(()));
    match x.written(Err("broken pipe".to_string())) {
        Next::Finished(end) => assert_eq!(why(end), "Could not send the time: broken pipe"),
        other => panic!("{:?}", other),
    }
    assert_eq!(x.stage(), Stage::Over);
}

#[test]
fn no_reply() {
    let mut x = reading(true);
    let end = x.replied(Err("reset".to_string()));
    assert_eq!(why(end), "No reply from the clock service: reset");
    assert_eq!(x.stage(), Stage::Over);
}

#[test]
fn a_refusal_is_passed_on() {
    let reply = b"error: not allowed\n";
    let end = reading(false).replied(Ok((reply, reply.len())));
    assert_eq!(why(end), "Could not set the clock: error: not allowed");
}

#[test]
fn only_the_bytes_read_count() {
    let end = reading(false).replied(Ok((b"okay", 2)));
    assert!(matches!(end, Outcome::ClockSet));
    let end = reading(false).replied(Ok((b"ok", 0)));
    assert_eq!(why(end), "Could not set the clock: ");
}

#[test]
fn bytes_that_are_not_utf8_never_succeed() {
    let end = reading(true).replied(Ok((b"ok\xff", 3)));
    assert_eq!(why(end), "Could not set the clock: ok\u{fffd}");
    let end = reading(true).replied(Ok((b"a\xe2\x82b\n", 5)));
    assert_eq!(why(end), "Could not set the clock: a\u{fffd}b");
}

#[test]
fn a_reply_beyond_ascii_is_kept() {
    let reply = "\u{a0}erreur: d\u{e9}sol\u{e9} \u{2014}\u{3000}".as_bytes();
    let end = reading(true).replied(Ok((reply, reply.len())));
    assert_eq!(why(end), "Could not set the clock: erreur: d\u{e9}sol\u{e9} \u{2014}");
}

#[test]
fn ok_with_white_space_around_it_is_success() {
    for text in ["ok", "ok\n", " ok", "\r\n\tok\u{3000} "] {
        assert!(matches!(judge(text, false), Outcome::ClockSet));
        assert!(matches!(judge(text, true), Outcome::Restart));
    }
}

#[test]
fn anything_else_is_failure() {
    for text in ["", "OK", "ok ok", "o k", "error: ok", "ok\u{200b}"] {
        assert_eq!(why(judge(text, true)), format!("Could not set the clock: {}", text.trim()));
    }
}
