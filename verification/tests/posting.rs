use trading_bots::posting::{OrderPost, PostAction, PostOutcome};
use trading_bots::response::Response;

fn name(a: &PostAction) -> String {
    match a {
        PostAction::BuildOrder => "build".into(),
        PostAction::BuildRequest => "request".into(),
        PostAction::Send => "send".into(),
        PostAction::Parse => "parse".into(),
        PostAction::MapAnswer => "map".into(),
        PostAction::RecordFailure(e) => format!("record:{}:{}", e.code, e.message),
        PostAction::InsertLog => "log".into(),
        PostAction::Finish(Ok(())) => "ok".into(),
        PostAction::Finish(Err(e)) => format!("err:{}", e.message),
    }
}

fn post(answer: impl Fn(&PostAction) -> PostOutcome) -> Vec<String> {
    let (mut p, mut action) = OrderPost::start();
    let mut trace = vec![name(&action)];
    for _ in 0..12 {
        if let PostAction::Finish(_) = action {
            break;
        }
        let o = answer(&action);
        let (next, next_action) = p.step(o);
        p = next;
        action = next_action;
        trace.push(name(&action));
    }
    trace
}

#[test]
fn acknowledged_test_order_stores_no_log() {
    let trace = post(|a| match a {
        PostAction::Send => PostOutcome::Answer("{}".to_string()),
        _ => PostOutcome::Done,
    });
    assert_eq!(trace, vec!["build", "request", "send", "ok"]);
}

#[test]
fn mapped_answer_stores_no_log() {
    let trace = post(|a| match a {
        PostAction::Send => PostOutcome::Answer("{\"orderId\":1}".to_string()),
        _ => PostOutcome::Done,
    });
    assert_eq!(trace, vec!["build", "request", "send", "parse", "map", "ok"]);
}

#[test]
fn failed_build_is_recorded_and_logged_once() {
    let trace = post(|a| match a {
        PostAction::BuildOrder => PostOutcome::Failed(Response::bad_request("Invalid quantity".into())),
        _ => PostOutcome::Done,
    });
    assert_eq!(trace, vec!["build", "record:400:Invalid quantity", "log", "err:Invalid quantity"]);
}

#[test]
fn failed_send_and_unreadable_answer_are_logged() {
    let trace = post(|a| match a {
        PostAction::Send => PostOutcome::Failed(Response::server_error("timeout".into())),
        _ => PostOutcome::Done,
    });
    assert_eq!(trace, vec!["build", "request", "send", "log", "err:timeout"]);
    let trace = post(|a| match a {
        PostAction::Send => PostOutcome::Answer("<html>".into()),
        PostAction::Parse => PostOutcome::Failed(Response::server_error("bad json".into())),
        _ => PostOutcome::Done,
    });
    assert_eq!(trace, vec!["build", "request", "send", "parse", "log", "err:bad json"]);
}

#[test]
fn failed_mapping_ends_without_log() {
    let trace = post(|a| match a {
        PostAction::Send => PostOutcome::Answer("{\"code\":-1013}".into()),
        PostAction::MapAnswer => PostOutcome::Failed(Response::server_error("rejected".into())),
        _ => PostOutcome::Done,
    });
    assert_eq!(trace, vec!["build", "request", "send", "parse", "map", "err:rejected"]);
}
