use hello_ockam::tracing_subscriber::{
    setup_outcome, setup_tracing, EmbeddedSubscriber, SubscriberHook, TracingSetupError,
    NEW_SPAN_ID,
};
use tracing::Dispatch;

#[test]
fn subscriber_enables_everything() {
    assert!(EmbeddedSubscriber::new().enabled());
}

#[test]
fn hook_lines_name_their_callback() {
    let s = EmbeddedSubscriber::new();
    assert_eq!(s.hook_line(SubscriberHook::NewSpan), "EmbeddedSubscriber::new_span");
    assert_eq!(s.hook_line(SubscriberHook::Record), "EmbeddedSubscriber::record");
    assert_eq!(
        s.hook_line(SubscriberHook::RecordFollowsFrom),
        "EmbeddedSubscriber::record_follows_from"
    );
    assert_eq!(s.hook_line(SubscriberHook::Enter), "EmbeddedSubscriber::enter");
    assert_eq!(s.hook_line(SubscriberHook::Exit), "EmbeddedSubscriber::exit");
}

#[test]
fn hook_lines_are_pairwise_distinct() {
    let s = EmbeddedSubscriber::new();
    let hooks = [
        SubscriberHook::NewSpan,
        SubscriberHook::Record,
        SubscriberHook::RecordFollowsFrom,
        SubscriberHook::Enter,
        SubscriberHook::Exit,
    ];
    for a in hooks {
        for b in hooks {
            assert_eq!(a == b, s.hook_line(a) == s.hook_line(b));
        }
    }
}

#[test]
fn new_span_reports_itself_and_uses_fixed_id() {
    let s = EmbeddedSubscriber::new();
    let (line, id) = s.new_span();
    assert_eq!(line, "EmbeddedSubscriber::new_span");
    assert_eq!(id.into_u64(), 0xAAAA);
    assert_eq!(NEW_SPAN_ID, 0xAAAA);
    let (_, again) = s.new_span();
    assert_eq!(again, id);
}

#[test]
fn setup_outcome_ok_stays_ok() {
    assert_eq!(setup_outcome(Ok(())), Ok(()));
}

#[test]
fn setup_error_message() {
    assert_eq!(
        TracingSetupError::GlobalDefaultAlreadySet.message(),
        "global default dispatcher for tracing is already set"
    );
}

#[test]
fn setup_tracing_succeeds_once_then_fails() {
    let first = setup_tracing(Dispatch::none());
    assert_eq!(first, Ok(()));
    let second = setup_tracing(Dispatch::none());
    assert_eq!(second, Err(TracingSetupError::GlobalDefaultAlreadySet));
    let raw = tracing::dispatcher::set_global_default(Dispatch::none());
    assert!(raw.is_err());
    assert_eq!(setup_outcome(raw), Err(TracingSetupError::GlobalDefaultAlreadySet));
}
