use dnac::device::Device;
use dnac::fetch::{FetchAction, FetchError, FetchEvent, FetchPhase, PageFetch, PAGE_SIZE};
use dnac::session::AuthError;
use dnac::token::Token;

fn token(value: &str) -> Token {
    Token { value: value.to_string(), obtained_at: 1000, expires_at: 4600 }
}

fn page(n: usize, tag: &str) -> Vec<Device> {
    (0..n)
        .map(|i| Device { hostname: Some(format!("{}-{}", tag, i)), ..Device::default() })
        .collect()
}

fn ok(records: Vec<Device>) -> FetchEvent {
    FetchEvent::Page { status: 200, records }
}

#[test]
fn pages_of_500_500_137_then_empty() {
    let (mut f, first) = PageFetch::start(token("t"));
    let mut offsets = Vec::new();
    match first {
        FetchAction::RequestPage { offset, limit } => {
            assert_eq!(limit, PAGE_SIZE);
            offsets.push(offset);
        }
        other => panic!("unexpected {:?}", other),
    }
    let mut answers = vec![page(500, "a"), page(500, "b"), page(137, "c"), page(0, "d")].into_iter();
    let result;
    loop {
        let (next, action) = f.step(ok(answers.next().expect("no more answers")));
        f = next;
        match action {
            FetchAction::RequestPage { offset, limit } => {
                assert_eq!(limit, 500);
                offsets.push(offset);
            }
            FetchAction::Complete(all) => {
                result = all;
                break;
            }
            other => panic!("unexpected {:?}", other),
        }
    }
    assert_eq!(offsets, vec![1, 501, 1001, 1501]);
    assert_eq!(result.len(), 1137);
    assert_eq!(result[0].hostname.as_deref(), Some("a-0"));
    assert_eq!(result[500].hostname.as_deref(), Some("b-0"));
    assert_eq!(result[1136].hostname.as_deref(), Some("c-136"));
    assert_eq!(f.phase, FetchPhase::Finished);
    assert!(answers.next().is_none());
}

#[test]
fn unauthorized_page_renews_once_then_succeeds() {
    let (f, _) = PageFetch::start(token("old"));
    let mut renewals = 0;
    let (f, a) = f.step(FetchEvent::Page { status: 401, records: Vec::new() });
    assert!(matches!(a, FetchAction::Renew));
    renewals += 1;
    let (f, a) = f.step(FetchEvent::Renewed(token("new")));
    assert!(matches!(a, FetchAction::RequestPage { offset: 1, limit: 500 }));
    assert_eq!(f.credential.value, "new");
    let (f, a) = f.step(ok(page(10, "x")));
    assert!(matches!(a, FetchAction::RequestPage { offset: 501, limit: 500 }));
    let (f, a) = f.step(ok(Vec::new()));
    match a {
        FetchAction::Complete(all) => assert_eq!(all.len(), 10),
        other => panic!("unexpected {:?}", other),
    }
    assert_eq!(renewals, 1);
    assert_eq!(f.credential.value, "new");
}

#[test]
fn second_unauthorized_aborts_with_nothing() {
    let (f, _) = PageFetch::start(token("old"));
    let (f, _) = f.step(ok(page(10, "x")));
    let (f, a) = f.step(FetchEvent::Page { status: 401, records: Vec::new() });
    assert!(matches!(a, FetchAction::Renew));
    let (f, a) = f.step(FetchEvent::Renewed(token("new")));
    assert!(matches!(a, FetchAction::RequestPage { offset: 501, limit: 500 }));
    let (f, a) = f.step(FetchEvent::Page { status: 401, records: Vec::new() });
    assert!(matches!(a, FetchAction::Abort(FetchError::Unauthorized)));
    assert_eq!(f.phase, FetchPhase::Failed);
    assert!(f.collected.is_empty());
}

#[test]
fn renewal_is_granted_again_on_a_later_page() {
    let (f, _) = PageFetch::start(token("a"));
    let (f, a) = f.step(FetchEvent::Page { status: 401, records: Vec::new() });
    assert!(matches!(a, FetchAction::Renew));
    let (f, _) = f.step(FetchEvent::Renewed(token("b")));
    let (f, _) = f.step(ok(page(3, "p")));
    let (f, a) = f.step(FetchEvent::Page { status: 401, records: Vec::new() });
    assert!(matches!(a, FetchAction::Renew));
    let (f, a) = f.step(FetchEvent::Renewed(token("c")));
    assert!(matches!(a, FetchAction::RequestPage { offset: 501, limit: 500 }));
    let (_, a) = f.step(ok(Vec::new()));
    match a {
        FetchAction::Complete(all) => assert_eq!(all.len(), 3),
        other => panic!("unexpected {:?}", other),
    }
}

#[test]
fn other_failure_status_aborts_at_once() {
    let (f, _) = PageFetch::start(token("t"));
    let (f, _) = f.step(ok(page(5, "x")));
    let (f, a) = f.step(FetchEvent::Page { status: 500, records: Vec::new() });
    assert!(matches!(a, FetchAction::Abort(FetchError::Status(500))));
    assert!(f.collected.is_empty());
    let (_, a) = f.step(ok(page(5, "y")));
    assert!(matches!(a, FetchAction::Idle));
}

#[test]
fn failed_renewal_aborts() {
    let (f, _) = PageFetch::start(token("t"));
    let (f, _) = f.step(FetchEvent::Page { status: 401, records: Vec::new() });
    let (f, a) = f.step(FetchEvent::RenewalFailed(AuthError::Rejected(403)));
    assert!(matches!(a, FetchAction::Abort(FetchError::Renewal(AuthError::Rejected(403)))));
    assert_eq!(f.phase, FetchPhase::Failed);
}

#[test]
fn short_page_does_not_end_the_walk() {
    let (f, _) = PageFetch::start(token("t"));
    let (f, a) = f.step(ok(page(1, "x")));
    assert!(matches!(a, FetchAction::RequestPage { offset: 501, limit: 500 }));
    let (f, a) = f.step(ok(page(2, "y")));
    assert!(matches!(a, FetchAction::RequestPage { offset: 1001, limit: 500 }));
    let (f, a) = f.step(ok(Vec::new()));
    match a {
        FetchAction::Complete(all) => assert_eq!(all.len(), 3),
        other => panic!("unexpected {:?}", other),
    }
    let (_, a) = f.step(ok(page(4, "z")));
    assert!(matches!(a, FetchAction::Idle));
}

#[test]
fn empty_first_page_gives_no_records() {
    let (f, _) = PageFetch::start(token("t"));
    let (_, a) = f.step(ok(Vec::new()));
    match a {
        FetchAction::Complete(all) => assert!(all.is_empty()),
        other => panic!("unexpected {:?}", other),
    }
}

#[test]
fn offset_that_cannot_advance_aborts() {
    let (mut f, _) = PageFetch::start(token("t"));
    f.offset = u64::MAX - 10;
    let (f, a) = f.step(ok(page(1, "x")));
    assert!(matches!(a, FetchAction::Abort(FetchError::OffsetOverflow)));
    assert!(f.collected.is_empty());
}

#[test]
fn renewal_event_out_of_turn_is_ignored() {
    let (f, _) = PageFetch::start(token("t"));
    let (f, a) = f.step(FetchEvent::Renewed(token("u")));
    assert!(matches!(a, FetchAction::Idle));
    assert_eq!(f.credential.value, "t");
    assert_eq!(f.phase, FetchPhase::AwaitingPage);
}
