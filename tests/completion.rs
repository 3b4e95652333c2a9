use webview_official::com::{ErrorCode, E_FAIL, S_OK};
use webview_official::completion::{create_one_shot, Delivery, PollOutcome};
use webview_official::pump::{after_poll, after_retrieval, MessageAction, PumpError, PumpStep, WM_APP};

#[test]
fn a_sent_value_is_polled_once() {
    let (context, mut completion) = create_one_shot::<String>();
    assert!(matches!(completion.poll(), PollOutcome::Pending));
    let delivery = context.complete(ErrorCode::new(S_OK), Some(String::from("env")));
    assert_eq!(delivery, Delivery::Sent);
    match completion.poll() {
        PollOutcome::Ready(v) => assert_eq!(v, "env"),
        _ => panic!("expected the value"),
    }
}

#[test]
fn a_failed_status_sends_nothing_and_cancels() {
    let (context, mut completion) = create_one_shot::<u32>();
    let delivery = context.complete(ErrorCode::new(E_FAIL), Some(5));
    assert_eq!(delivery, Delivery::Failed(ErrorCode::new(E_FAIL)));
    assert!(matches!(completion.poll(), PollOutcome::Canceled));
}

#[test]
fn an_absent_value_sends_nothing_and_cancels() {
    let (context, mut completion) = create_one_shot::<u32>();
    assert_eq!(context.complete(ErrorCode::new(S_OK), None), Delivery::Absent);
    assert!(matches!(completion.poll(), PollOutcome::Canceled));
}

#[test]
fn a_dropped_context_cancels() {
    let (context, mut completion) = create_one_shot::<u32>();
    drop(context);
    assert!(matches!(completion.poll(), PollOutcome::Canceled));
}

#[test]
fn sending_to_a_dropped_completion_gives_the_value_back() {
    let (context, completion) = create_one_shot::<u32>();
    drop(completion);
    assert_eq!(context.send(11), Err(11));
    let (context, completion) = create_one_shot::<u32>();
    drop(completion);
    assert_eq!(context.complete(ErrorCode::new(S_OK), Some(3)), Delivery::ReceiverGone);
}

#[test]
fn pump_stops_on_value_or_cancellation() {
    assert!(matches!(after_poll(PollOutcome::Ready(4u8)), PumpStep::Finish(Ok(4))));
    assert!(matches!(after_poll(PollOutcome::<u8>::Pending), PumpStep::Fetch));
    assert!(matches!(
        after_poll(PollOutcome::<u8>::Canceled),
        PumpStep::Finish(Err(PumpError::Canceled))
    ));
}

#[test]
fn pump_classifies_retrievals() {
    assert_eq!(after_retrieval(-1, 0x000F, false), MessageAction::Stop(PumpError::Failed));
    assert_eq!(after_retrieval(0, 0x0012, true), MessageAction::Stop(PumpError::Terminated));
    assert_eq!(after_retrieval(1, 0x000F, true), MessageAction::Dispatch);
    assert_eq!(after_retrieval(1, WM_APP, true), MessageAction::RunQueued);
    assert_eq!(after_retrieval(1, WM_APP, false), MessageAction::Dispatch);
    assert_eq!(after_retrieval(-2, 0x8000, false), MessageAction::Dispatch);
}
