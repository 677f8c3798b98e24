use floater::codec::{encode, Command, Status};
use floater::dispatch::{
    action_response, content_event_name, dispatch_step, plan_line, Action, DispatchError, LinePlan,
    ShowEvent,
};
use floater::store::{get_content, set_content, StateStore};

#[test]
fn show_dispatch_updates_store_and_builds_notification() {
    let mut store = StateStore::new();
    let p = plan_line("{\"action\":\"show\",\"content\":\"hello\",\"timer\":true}\n");
    let cmd = match p {
        LinePlan::Dispatch(cmd) => cmd,
        other => panic!("expected a dispatch, got {:?}", other),
    };
    let action = dispatch_step(&mut store, cmd);
    assert_eq!(store.read(), "hello");
    assert_eq!(
        action,
        Action::ShowWindow(ShowEvent { content: "hello".to_string(), timer: true }),
    );
    let response = action_response(&action, Ok(()));
    assert_eq!(response.status, Status::Success);
    assert_eq!(response.message, "Window shown with content");
    assert_eq!(
        encode(&response),
        "{\"status\":\"success\",\"message\":\"Window shown with content\"}\n",
    );
}

#[test]
fn hide_dispatch_never_touches_the_store() {
    let mut store = StateStore::new();
    set_content(&mut store, "kept".to_string());
    let action = dispatch_step(&mut store, Command::Hide);
    assert_eq!(store.read(), "kept");
    assert_eq!(action, Action::HideWindow);
    let response = action_response(&action, Ok(()));
    assert_eq!(response.status, Status::Success);
    assert_eq!(response.message, "Window hidden");
    assert_eq!(encode(&response), "{\"status\":\"success\",\"message\":\"Window hidden\"}\n");
}

#[test]
fn window_unavailable_is_reported_and_store_keeps_the_write() {
    let mut store = StateStore::new();
    let action = dispatch_step(
        &mut store,
        Command::Show { content: "written".to_string(), timer: false },
    );
    let response = action_response(&action, Err(DispatchError::WindowUnavailable));
    assert_eq!(response.status, Status::Error);
    assert_eq!(response.message, "Failed to show window: Main window not found");
    assert_eq!(store.read(), "written");
}

#[test]
fn collaborator_failure_is_reported_with_its_description() {
    let show = Action::ShowWindow(ShowEvent { content: "x".to_string(), timer: false });
    let r = action_response(&show, Err(DispatchError::CollaboratorFailure("boom".to_string())));
    assert_eq!(r.status, Status::Error);
    assert_eq!(r.message, "Failed to show window: boom");

    let hide = Action::HideWindow;
    let r = action_response(&hide, Err(DispatchError::CollaboratorFailure("bust".to_string())));
    assert_eq!(r.status, Status::Error);
    assert_eq!(r.message, "Failed to hide window: bust");

    let r = action_response(&hide, Err(DispatchError::WindowUnavailable));
    assert_eq!(r.message, "Failed to hide window: Main window not found");
}

#[test]
fn malformed_line_leaves_no_work_for_the_dispatcher() {
    let p = plan_line("{\"action\":\"show\"}");
    match p {
        LinePlan::Reply(r) => {
            assert_eq!(r.status, Status::Error);
            assert!(r.message.contains("content"));
        }
        other => panic!("expected an error reply, got {:?}", other),
    }
}

#[test]
fn racing_shows_leave_exactly_one_content() {
    let first = Command::Show { content: "one".to_string(), timer: false };
    let second = Command::Show { content: "two".to_string(), timer: true };

    let mut store = StateStore::new();
    dispatch_step(&mut store, first.clone());
    dispatch_step(&mut store, second.clone());
    assert_eq!(store.read(), "two");

    let mut store = StateStore::new();
    dispatch_step(&mut store, second);
    dispatch_step(&mut store, first);
    assert_eq!(store.read(), "one");
}

#[test]
fn content_accessors_mirror_the_store() {
    let mut store = StateStore::new();
    assert_eq!(get_content(&store), "");
    let note = set_content(&mut store, "current".to_string());
    assert_eq!(note, "current");
    assert_eq!(get_content(&store), "current");
}

#[test]
fn content_event_name_is_fixed() {
    assert_eq!(content_event_name(), "content-updated");
}
