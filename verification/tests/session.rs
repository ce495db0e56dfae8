use vacht::codec::{LocalSocketStreamError, PythonEvent};
use vacht::handle::ObscuredGlobal;
use vacht::session::{
    exception_response, Action, ExceptionInfo, IsolateState, Phase, Response, ScriptOutcome,
};

fn exc(name: Option<&str>, message: Option<&str>, stack: Option<&str>) -> ExceptionInfo {
    ExceptionInfo {
        name: name.map(String::from),
        message: message.map(String::from),
        stack: stack.map(String::from),
    }
}

#[test]
fn scenario_run_throw_drop_close() {
    let mut st = IsolateState::new();

    // RunScript("1+1") -> the engine produces a value; the peer gets its id.
    let action = st.step(Some(PythonEvent::RunScript(String::from("1+1"))));
    assert_eq!(action, Action::Run(String::from("1+1")));
    let r = st.on_run_outcome(ScriptOutcome::Value(ObscuredGlobal::new(0xAB)));
    let k = match r {
        Response::JsValue(k) => k,
        other => panic!("expected a value id, got {:?}", other),
    };

    // RunScript("throw new Error('x')") -> a structured exception, and the
    // session keeps running.
    let action = st.step(Some(PythonEvent::RunScript(String::from(
        "throw new Error('x')",
    ))));
    assert_eq!(action, Action::Run(String::from("throw new Error('x')")));
    let r = st.on_run_outcome(ScriptOutcome::Exception(exc(
        Some("Error"),
        Some("x"),
        Some("Error: x\n    at <anonymous>:1:7"),
    )));
    assert_eq!(
        r,
        Response::JsException(
            String::from("Error"),
            String::from("x"),
            String::from("Error: x\n    at <anonymous>:1:7"),
        )
    );
    assert_eq!(st.phase, Phase::Running);

    // DropValue(k) -> the handle comes out for release, no response is owed.
    let action = st.step(Some(PythonEvent::DropValue(k)));
    assert_eq!(action, Action::Release(Some(ObscuredGlobal::new(0xAB))));

    // A second DropValue(k) is silently ignored.
    let action = st.step(Some(PythonEvent::DropValue(k)));
    assert_eq!(action, Action::Release(None));

    // CloseIsolate -> exactly one Closing response, then the drain.
    let action = st.step(None);
    assert_eq!(action, Action::CloseUp(Response::Closing));
    assert_eq!(st.phase, Phase::Closing);
    let drained = st.close();
    assert!(drained.is_empty());
    assert_eq!(st.phase, Phase::Closed);
}

#[test]
fn exception_without_stack_yields_empty_third_string() {
    let r = exception_response(exc(Some("TypeError"), Some("boom"), None));
    assert_eq!(
        r,
        Response::JsException(String::from("TypeError"), String::from("boom"), String::new())
    );
}

#[test]
fn exception_defaults_for_missing_fields() {
    let r = exception_response(exc(None, None, None));
    assert_eq!(
        r,
        Response::JsException(
            String::from("Error"),
            String::from("unknown message"),
            String::new()
        )
    );
}

#[test]
fn responses_follow_request_order() {
    let mut st = IsolateState::new();
    let first = st.on_run_outcome(ScriptOutcome::Value(ObscuredGlobal::new(1)));
    let second = st.on_run_outcome(ScriptOutcome::Value(ObscuredGlobal::new(2)));
    // One response per request, ids handed out in processing order.
    assert_eq!(first, Response::JsValue(0));
    assert_eq!(second, Response::JsValue(1));
}

#[test]
fn protocol_error_ends_session_with_error_response() {
    let mut st = IsolateState::new();
    let action = st.step(Some(PythonEvent::Errored(
        LocalSocketStreamError::UnknownEventType,
    )));
    assert_eq!(
        action,
        Action::CloseUp(Response::Error(String::from("unknown event type")))
    );
    assert_eq!(st.phase, Phase::Closing);
}

#[test]
fn shutdown_drains_unreleased_handles() {
    let mut st = IsolateState::new();
    for raw in [11u64, 22, 33] {
        st.on_run_outcome(ScriptOutcome::Value(ObscuredGlobal::new(raw)));
    }
    let action = st.step(None);
    assert_eq!(action, Action::CloseUp(Response::Closing));
    let drained = st.close();
    let raws: Vec<u64> = drained.into_iter().map(|g| g.take()).collect();
    assert_eq!(raws, vec![11, 22, 33]);
    assert_eq!(st.phase, Phase::Closed);
}

#[test]
fn drop_of_never_issued_id_is_ignored() {
    let mut st = IsolateState::new();
    let action = st.step(Some(PythonEvent::DropValue(12345)));
    assert_eq!(action, Action::Release(None));
    assert_eq!(st.phase, Phase::Running);
}
