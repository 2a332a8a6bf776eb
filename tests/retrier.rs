use chaos_harness::config::RETRY_DELAY_MS;
use chaos_harness::request::{frame_request, request_payload, InvokeError};
use chaos_harness::retrier::{
    payload_text, start_invocation, Action, Event, InvokeOutcome, Retrier,
};
use chaos_harness::crash_flag::{finish_toggle, plan_toggle, FlagRead};

const TARGET: &str = "arn:aws:lambda:us-east-1:000000000000:function:bank";
const BODY: &str = "{\"key\":\"value\",\"request_id\":\"abc\"}";

fn retrier() -> Retrier {
    Retrier::new(TARGET.to_string(), "abc".to_string(), BODY.to_string())
}

fn completed(text: &str) -> Event {
    Event::Invoked(InvokeOutcome::Completed(Some(text.as_bytes().to_vec())))
}

#[test]
fn frame_request_wraps_identifier() {
    assert_eq!(frame_request("\"abc\""), BODY);
}

#[test]
fn request_payload_quotes_identifier() {
    assert_eq!(request_payload("abc"), Ok(BODY.to_string()));
}

#[test]
fn request_payload_escapes_identifier() {
    assert_eq!(
        request_payload("a\"b\\c\n"),
        Ok::<String, InvokeError>("{\"key\":\"value\",\"request_id\":\"a\\\"b\\\\c\\n\"}".to_string())
    );
}

#[test]
fn request_payload_escapes_control_characters() {
    assert_eq!(
        request_payload("\u{1}\t\u{8}\u{c}\r\u{1f}"),
        Ok::<String, InvokeError>(
            "{\"key\":\"value\",\"request_id\":\"\\u0001\\t\\b\\f\\r\\u001f\"}".to_string()
        )
    );
}

#[test]
fn request_payload_keeps_other_characters() {
    assert_eq!(
        request_payload("\u{7f}/\u{e9}"),
        Ok::<String, InvokeError>("{\"key\":\"value\",\"request_id\":\"\u{7f}/\u{e9}\"}".to_string())
    );
}

#[test]
fn payload_text_without_payload_is_empty() {
    assert_eq!(payload_text(None), "");
}

#[test]
fn payload_text_decodes_utf8() {
    assert_eq!(payload_text(Some(b"{\"ok\":1}".to_vec())), "{\"ok\":1}");
    assert_eq!(payload_text(Some("h\u{e9}".as_bytes().to_vec())), "h\u{e9}");
}

#[test]
fn payload_text_replaces_invalid_bytes() {
    assert_eq!(payload_text(Some(vec![b'a', 0xff, b'b'])), "a\u{fffd}b");
}

#[test]
fn first_action_invokes_with_request() {
    assert_eq!(retrier().pending_action(), Action::Invoke(TARGET.to_string(), BODY.to_string()));
}

#[test]
fn success_on_first_attempt_finishes() {
    let mut r = retrier();
    assert_eq!(r.step(completed("done")), Action::Finish("done".to_string()));
}

#[test]
fn success_without_payload_finishes_empty() {
    let mut r = retrier();
    let a = r.step(Event::Invoked(InvokeOutcome::Completed(None)));
    assert_eq!(a, Action::Finish(String::new()));
}

#[test]
fn function_error_waits_then_retries() {
    let mut r = retrier();
    assert_eq!(r.step(Event::Invoked(InvokeOutcome::FunctionError)), Action::Wait(5000));
    assert_eq!(r.step(Event::WaitElapsed), Action::Invoke(TARGET.to_string(), BODY.to_string()));
}

#[test]
fn transport_error_waits_then_retries() {
    let mut r = retrier();
    let a = r.step(Event::Invoked(InvokeOutcome::TransportError("refused".to_string())));
    assert_eq!(a, Action::Wait(RETRY_DELAY_MS));
    assert_eq!(r.step(Event::WaitElapsed), Action::Invoke(TARGET.to_string(), BODY.to_string()));
}

#[test]
fn failures_of_both_kinds_behave_alike() {
    let mut a = retrier();
    let mut b = retrier();
    let fa = a.step(Event::Invoked(InvokeOutcome::FunctionError));
    let fb = b.step(Event::Invoked(InvokeOutcome::TransportError("dns".to_string())));
    assert_eq!(fa, fb);
    assert_eq!(a.step(Event::WaitElapsed), b.step(Event::WaitElapsed));
    assert_eq!(a.step(completed("x")), b.step(completed("x")));
}

#[test]
fn eventual_success_after_failures() {
    let n = 3;
    let mut r = retrier();
    let mut action = r.pending_action();
    let mut invocations = 0;
    let mut waited: u64 = 0;
    loop {
        match action {
            Action::Invoke(target, body) => {
                assert_eq!(target, TARGET);
                assert_eq!(body, BODY);
                invocations += 1;
                let outcome = if invocations <= n {
                    if invocations % 2 == 0 {
                        InvokeOutcome::TransportError("unreachable".to_string())
                    } else {
                        InvokeOutcome::FunctionError
                    }
                } else {
                    InvokeOutcome::Completed(Some(b"balance=1000".to_vec()))
                };
                action = r.step(Event::Invoked(outcome));
            }
            Action::Wait(ms) => {
                waited += ms;
                action = r.step(Event::WaitElapsed);
            }
            Action::Finish(text) => {
                assert_eq!(text, "balance=1000");
                break;
            }
        }
    }
    assert_eq!(invocations, n + 1);
    assert_eq!(waited, 3 * 5000);
}

#[test]
fn finished_invocation_ignores_further_events() {
    let mut r = retrier();
    r.step(completed("done"));
    assert_eq!(r.step(Event::Invoked(InvokeOutcome::FunctionError)), Action::Finish("done".to_string()));
    assert_eq!(r.step(Event::WaitElapsed), Action::Finish("done".to_string()));
    assert_eq!(r.step(completed("other")), Action::Finish("done".to_string()));
}

#[test]
fn unexpected_event_repeats_pending_action() {
    let mut r = retrier();
    assert_eq!(r.step(Event::WaitElapsed), Action::Invoke(TARGET.to_string(), BODY.to_string()));
    r.step(Event::Invoked(InvokeOutcome::FunctionError));
    assert_eq!(r.step(completed("early")), Action::Wait(5000));
}

#[test]
fn started_invocation_carries_uuid() {
    let r = start_invocation(TARGET.to_string()).unwrap();
    let id = r.request_id().to_string();
    assert_eq!(id.len(), 36);
    for (i, c) in id.chars().enumerate() {
        if i == 8 || i == 13 || i == 18 || i == 23 {
            assert_eq!(c, '-');
        } else {
            assert!(c.is_ascii_hexdigit() && !c.is_ascii_uppercase());
        }
    }
    assert_eq!(id.as_bytes()[14], b'4');
    assert!(matches!(id.as_bytes()[19], b'8' | b'9' | b'a' | b'b'));
    let expected = format!("{{\"key\":\"value\",\"request_id\":\"{}\"}}", id);
    assert_eq!(r.pending_action(), Action::Invoke(TARGET.to_string(), expected));
}

#[test]
fn retries_keep_request_identifier() {
    let mut r = start_invocation(TARGET.to_string()).unwrap();
    let id = r.request_id().to_string();
    let first = r.pending_action();
    for _ in 0..4 {
        r.step(Event::Invoked(InvokeOutcome::TransportError("down".to_string())));
        assert_eq!(r.step(Event::WaitElapsed), first);
    }
    assert_eq!(r.request_id(), id);
    match first {
        Action::Invoke(target, body) => {
            assert_eq!(target, TARGET);
            assert!(body.contains(&id));
        }
        other => panic!("unexpected first action {:?}", other),
    }
}

#[test]
fn independent_invocations_get_distinct_identifiers() {
    let a = start_invocation(TARGET.to_string()).unwrap();
    let b = start_invocation(TARGET.to_string()).unwrap();
    assert_ne!(a.request_id(), b.request_id());
}

#[test]
fn toggle_on_off_then_invoke_once() {
    let on = finish_toggle(plan_toggle(FlagRead::Text("0".to_string())).unwrap(), Ok(())).unwrap();
    assert_eq!(on, "1");
    let off = finish_toggle(plan_toggle(FlagRead::Text(on)).unwrap(), Ok(())).unwrap();
    assert_eq!(off, "0");
    let mut r = start_invocation(TARGET.to_string()).unwrap();
    assert!(matches!(r.pending_action(), Action::Invoke(_, _)));
    assert_eq!(r.step(completed("ok")), Action::Finish("ok".to_string()));
}
