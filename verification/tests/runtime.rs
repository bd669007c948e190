use kj_rs::exception::Exception;
use kj_rs::future::{
    settle_infallible_poll, settle_poll, FuturePollStatus, PollOutcome, SlotWrite, COMPLETE_REPR,
    ERROR_REPR, PENDING_REPR,
};
use kj_rs::promise::{promise_poll_step, PromiseStep};
use kj_rs::result::{exception, Result as CxxResult};

#[test]
fn status_reprs_match_cxx_enum() {
    assert_eq!(FuturePollStatus::pending().repr, 0);
    assert_eq!(FuturePollStatus::complete().repr, 1);
    assert_eq!(FuturePollStatus::error().repr, 2);
    assert_eq!(PENDING_REPR, 0);
    assert_eq!(COMPLETE_REPR, 1);
    assert_eq!(ERROR_REPR, 2);
    assert!(FuturePollStatus::pending() != FuturePollStatus::complete());
    assert!(FuturePollStatus::complete() != FuturePollStatus::error());
}

#[test]
fn pending_poll_leaves_slot_untouched() {
    let (status, slot) = settle_poll::<i32>(PollOutcome::Pending);
    assert_eq!(status.repr, 0);
    assert!(matches!(slot, SlotWrite::Untouched));
}

#[test]
fn ready_ok_poll_writes_value() {
    let (status, slot) = settle_poll::<i32>(PollOutcome::Ready(Ok(42)));
    assert_eq!(status.repr, 1);
    assert!(matches!(slot, SlotWrite::Value(42)));
}

#[test]
fn ready_err_poll_writes_error_text() {
    let (status, slot) = settle_poll::<i32>(PollOutcome::Ready(Err("disk on fire".to_string())));
    assert_eq!(status.repr, 2);
    match slot {
        SlotWrite::ErrorText(text) => assert_eq!(text, "disk on fire"),
        _ => panic!("expected the error text"),
    }
}

#[test]
fn infallible_poll_never_reports_error() {
    let (status, slot) = settle_infallible_poll::<u8>(PollOutcome::Ready(7));
    assert_eq!(status, FuturePollStatus::complete());
    assert!(matches!(slot, SlotWrite::Value(7)));
    let (status, slot) = settle_infallible_poll::<u8>(PollOutcome::Pending);
    assert_eq!(status, FuturePollStatus::pending());
    assert!(matches!(slot, SlotWrite::Untouched));
}

#[test]
fn infallible_matches_fallible_ok() {
    let (a, _) = settle_infallible_poll::<u8>(PollOutcome::Ready(3));
    let (b, _) = settle_poll::<u8>(PollOutcome::Ready(Ok(3)));
    assert_eq!(a, b);
}

#[test]
fn exception_reports_its_message() {
    let e = Exception::new("boom".to_string());
    assert_eq!(e.what(), "boom");
    assert_eq!(e.to_string(), "boom");
}

#[test]
fn valid_message_crosses_unchanged() {
    let p = exception(b"connection reset");
    assert_eq!(p.bytes(), b"connection reset");
    assert_eq!(p.len(), 16);
    match CxxResult::Thrown(p).exception() {
        Err(e) => assert_eq!(e.what(), "connection reset"),
        Ok(()) => panic!("expected an exception"),
    }
}

#[test]
fn multibyte_message_keeps_byte_length() {
    let p = exception("caf\u{e9}".as_bytes());
    assert_eq!(p.len(), 5);
    match CxxResult::Thrown(p).exception() {
        Err(e) => assert_eq!(e.what(), "caf\u{e9}"),
        Ok(()) => panic!("expected an exception"),
    }
}

#[test]
fn invalid_message_bytes_are_replaced() {
    let p = exception(&[0x66, 0xff, 0x6f]);
    assert_eq!(p.len(), 5);
    assert_eq!(p.bytes(), "f\u{fffd}o".as_bytes());
    match CxxResult::Thrown(p).exception() {
        Err(e) => assert_eq!(e.what(), "f\u{fffd}o"),
        Ok(()) => panic!("expected an exception"),
    }
}

#[test]
fn empty_message_is_kept() {
    let p = exception(&[]);
    assert_eq!(p.len(), 0);
    match CxxResult::Thrown(p).exception() {
        Err(e) => assert_eq!(e.what(), ""),
        Ok(()) => panic!("expected an exception"),
    }
}

#[test]
fn success_is_ok() {
    assert!(CxxResult::Success.exception().is_ok());
}

#[test]
fn promise_step_follows_awaiter() {
    assert_eq!(promise_poll_step(true), PromiseStep::TakeAndUnwrap);
    assert_eq!(promise_poll_step(false), PromiseStep::Wait);
}
