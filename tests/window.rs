use font_render::shader::{compile_outcome, link_outcome, log_text_len, ShaderError, GL_STATUS_OK};
use font_render::viewport::{projection_for, Action, Projection, Scale, ViewState, WindowEvent};

#[test]
fn resize_rescales_projection_once() {
    let mut state = ViewState::new(600, 600);
    let before = projection_for(state.width, state.height);
    assert_eq!(before.scale_x(), Scale { num: 2, den: 600 });
    let actions = state.handle_event(WindowEvent::Resized { width: 800, height: 400 });
    assert_eq!(
        actions,
        vec![
            Action::SetViewport { width: 800, height: 400 },
            Action::UploadProjection(Projection { width: 800, height: 400 }),
        ]
    );
    let uploads = actions.iter().filter(|a| matches!(a, Action::UploadProjection(_))).count();
    assert_eq!(uploads, 1);
    assert_eq!((state.width, state.height), (800, 400));
    let after = projection_for(state.width, state.height);
    // One over the half-width 400 and the half-height 200.
    assert_eq!(after.scale_x(), Scale { num: 2, den: 800 });
    assert_eq!(after.scale_y(), Scale { num: 2, den: 400 });
    assert_eq!(after.scale_z(), Scale { num: -1, den: 1 });
}

#[test]
fn startup_uploads_projection() {
    let state = ViewState::new(1280, 720);
    assert_eq!(state.startup_actions(), vec![Action::UploadProjection(Projection { width: 1280, height: 720 })]);
}

#[test]
fn other_events_ask_for_nothing() {
    let mut state = ViewState::new(640, 480);
    assert!(state.handle_event(WindowEvent::MouseMoved { x: 12, y: 34 }).is_empty());
    assert_eq!((state.cursor_x, state.cursor_y), (12, 34));
    assert!(state.handle_event(WindowEvent::Other).is_empty());
    assert!(state.handle_event(WindowEvent::Resized { width: 0, height: 300 }).is_empty());
    assert_eq!((state.width, state.height), (640, 480));
    assert!(state.running);
    assert!(state.handle_event(WindowEvent::Quit).is_empty());
    assert!(!state.running);
}

#[test]
fn failed_compile_reports_log() {
    let r = compile_outcome(3, 0, String::from("0:1(1): error: syntax error, unexpected IDENTIFIER"));
    assert_eq!(r, Err(ShaderError::Compile(String::from("0:1(1): error: syntax error, unexpected IDENTIFIER"))));
}

#[test]
fn failed_compile_without_log_still_reports() {
    match compile_outcome(3, 0, String::new()) {
        Err(ShaderError::Compile(m)) => assert!(!m.is_empty()),
        other => panic!("unexpected {:?}", other),
    }
    match link_outcome(9, 0, String::new()) {
        Err(ShaderError::Link(m)) => assert!(!m.is_empty()),
        other => panic!("unexpected {:?}", other),
    }
}

#[test]
fn successful_builds_keep_their_handles() {
    assert_eq!(compile_outcome(3, GL_STATUS_OK, String::new()), Ok(3));
    assert_eq!(link_outcome(9, GL_STATUS_OK, String::from("warning")), Ok(9));
    assert_eq!(link_outcome(9, 0, String::from("link error")), Err(ShaderError::Link(String::from("link error"))));
}

#[test]
fn log_text_stops_at_nul() {
    assert_eq!(log_text_len(&b"error\0  ".to_vec()), 5);
    assert_eq!(log_text_len(&b"abc".to_vec()), 3);
    assert_eq!(log_text_len(&Vec::new()), 0);
}
