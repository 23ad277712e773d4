use window_reconciler::descriptor::{WindowDescriptor, WIN_DEFAULT_POS};
use window_reconciler::ops::{CreateOutcome, NativeOp, RenderStatus};
use window_reconciler::reconcile::InstanceState;
use window_reconciler::win::{
    render_windows, window_proc_action, WndProcAction, WM_CREATE, WM_DESTROY,
};

fn desc(title: &str, width: i32, height: i32, visible: bool, enabled: bool) -> WindowDescriptor {
    WindowDescriptor {
        title: title.to_owned(),
        width,
        height,
        left: None,
        top: None,
        visible,
        enabled,
    }
}

fn ok_outcome(handle: u64) -> CreateOutcome {
    CreateOutcome { module_ok: true, ok: true, handle, controller: 0, scene_found: false }
}

fn count<F: Fn(&NativeOp) -> bool>(ops: &[NativeOp], f: F) -> usize {
    ops.iter().filter(|op| f(op)).count()
}

#[test]
fn scenario_hello_window() {
    // title "hello", 800x600, visible, input disabled: one class registration,
    // one creation, one disabling input call, and the window shown.
    let d = desc("hello", 800, 600, true, false);
    let mut state = InstanceState::new();
    let r = render_windows(&d, &mut state, &ok_outcome(11));

    assert_eq!(r.status, RenderStatus::Completed);
    assert_eq!(count(&r.ops, |op| matches!(op, NativeOp::RegisterClass)), 1);
    assert_eq!(count(&r.ops, |op| matches!(op, NativeOp::CreateWindow { .. })), 1);
    assert_eq!(
        count(&r.ops, |op| matches!(op, NativeOp::EnableInput { enabled: false })),
        1
    );
    assert_eq!(count(&r.ops, |op| matches!(op, NativeOp::ShowWindow)), 1);
    assert_eq!(state.handle, Some(11));
    assert!(state.initialized);

    // "hello" in UTF-16 with the terminating null, on both title-bearing calls.
    let expected: Vec<u16> = vec![0x68, 0x65, 0x6C, 0x6C, 0x6F, 0];
    match &r.ops[2] {
        NativeOp::CreateWindow { title, left, top, width, height } => {
            assert_eq!(title, &expected);
            assert_eq!((*left, *top), (WIN_DEFAULT_POS, WIN_DEFAULT_POS));
            assert_eq!((*width, *height), (800, 600));
        }
        other => panic!("expected the creation call, found {:?}", other),
    }
    match &r.ops[4] {
        NativeOp::SetWindowText { title } => assert_eq!(title, &expected),
        other => panic!("expected the title call, found {:?}", other),
    }
}

#[test]
fn second_visible_render_does_not_recreate() {
    let d = desc("hello", 800, 600, true, true);
    let mut state = InstanceState::new();
    let r1 = render_windows(&d, &mut state, &ok_outcome(11));
    assert_eq!(count(&r1.ops, |op| matches!(op, NativeOp::CreateWindow { .. })), 1);

    let r2 = render_windows(&d, &mut state, &ok_outcome(99));
    assert_eq!(count(&r2.ops, |op| matches!(op, NativeOp::CreateWindow { .. })), 0);
    assert_eq!(r2.ops.len(), 5);
    assert_eq!(state.handle, Some(11), "the handle is updated in place, never replaced");
    assert!(state.initialized);
}

#[test]
fn failed_create_retries_next_render() {
    let d = desc("hello", 640, 480, true, true);
    let mut state = InstanceState::new();

    let failed = CreateOutcome { module_ok: true, ok: false, handle: 0, controller: 0, scene_found: false };
    let r1 = render_windows(&d, &mut state, &failed);
    assert_eq!(r1.status, RenderStatus::CreateFailed);
    assert!(!state.initialized);
    assert_eq!(state.handle, None);
    assert_eq!(count(&r1.ops, |op| matches!(op, NativeOp::CreateWindow { .. })), 1);

    let r2 = render_windows(&d, &mut state, &ok_outcome(5));
    assert_eq!(count(&r2.ops, |op| matches!(op, NativeOp::CreateWindow { .. })), 1);
    assert_eq!(r2.status, RenderStatus::Completed);
    assert!(state.initialized);
}

#[test]
fn module_lookup_failure_stops_before_registration() {
    let d = desc("hello", 640, 480, true, true);
    let mut state = InstanceState::new();
    let failed = CreateOutcome { module_ok: false, ok: true, handle: 3, controller: 0, scene_found: false };
    let r = render_windows(&d, &mut state, &failed);
    assert_eq!(r.status, RenderStatus::CreateFailed);
    assert_eq!(r.ops, vec![NativeOp::GetModuleHandle]);
    assert!(!state.initialized);
}

#[test]
fn hide_destroys_and_show_creates_fresh() {
    let shown = desc("hello", 800, 600, true, true);
    let hidden = desc("hello", 800, 600, false, true);
    let mut state = InstanceState::new();

    let r1 = render_windows(&shown, &mut state, &ok_outcome(21));
    assert_eq!(count(&r1.ops, |op| matches!(op, NativeOp::CreateWindow { .. })), 1);

    let r2 = render_windows(&hidden, &mut state, &ok_outcome(22));
    assert_eq!(r2.ops, vec![NativeOp::DestroyWindow { handle: 21 }]);
    assert_eq!(state.handle, None);
    assert!(!state.initialized);

    let r3 = render_windows(&shown, &mut state, &ok_outcome(23));
    assert_eq!(count(&r3.ops, |op| matches!(op, NativeOp::CreateWindow { .. })), 1);
    assert_eq!(state.handle, Some(23), "re-show creates a fresh handle");
}

#[test]
fn hidden_uncreated_render_is_a_noop() {
    let hidden = desc("hello", 800, 600, false, true);
    let mut state = InstanceState::new();
    let r = render_windows(&hidden, &mut state, &ok_outcome(1));
    assert!(r.ops.is_empty());
    assert_eq!(r.status, RenderStatus::Completed);
    assert_eq!(state, InstanceState::new());
}

#[test]
fn update_plan_is_the_same_whatever_the_native_layer_answers() {
    // A faulty adapter cannot shorten the update: the planned operations do
    // not depend on any reported outcome, so one failing field still leaves
    // every other field applied.
    let d = desc("hello", 800, 600, true, true);
    let mut s1 = InstanceState::new();
    let mut s2 = InstanceState::new();
    render_windows(&d, &mut s1, &ok_outcome(11));
    render_windows(&d, &mut s2, &ok_outcome(11));

    let faulty = CreateOutcome { module_ok: false, ok: false, handle: 0, controller: 0, scene_found: false };
    let r_ok = render_windows(&d, &mut s1, &ok_outcome(50));
    let r_faulty = render_windows(&d, &mut s2, &faulty);
    assert_eq!(r_ok.ops, r_faulty.ops);
    assert_eq!(r_faulty.status, RenderStatus::Completed);
    assert!(r_faulty.ops.iter().any(|op| matches!(op, NativeOp::SetWindowText { .. })));
    assert!(r_faulty.ops.iter().any(|op| matches!(op, NativeOp::SetWindowPos { .. })));
    assert!(r_faulty.ops.iter().any(|op| matches!(op, NativeOp::EnableInput { .. })));
}

#[test]
fn window_procedure_dispatch() {
    assert_eq!(window_proc_action(WM_CREATE), WndProcAction::StoreInstance);
    assert_eq!(window_proc_action(WM_DESTROY), WndProcAction::PostQuit);
    assert_eq!(window_proc_action(0x000F), WndProcAction::DefaultHandling);
    assert_eq!(window_proc_action(0), WndProcAction::DefaultHandling);
}

#[test]
fn update_applies_every_field_with_declared_position() {
    let d = WindowDescriptor {
        title: "t".to_owned(),
        width: 300,
        height: 200,
        left: Some(40),
        top: Some(50),
        visible: true,
        enabled: true,
    };
    let mut state = InstanceState::new();
    render_windows(&d, &mut state, &ok_outcome(2));
    let r = render_windows(&d, &mut state, &ok_outcome(2));
    assert_eq!(r.ops.len(), 5);
    assert!(matches!(r.ops[0], NativeOp::ShowWindow));
    assert!(matches!(r.ops[1], NativeOp::SetWindowText { .. }));
    assert_eq!(
        r.ops[2],
        NativeOp::SetWindowPos { left: 40, top: 50, width: 300, height: 200 }
    );
    assert_eq!(r.ops[3], NativeOp::EnableInput { enabled: true });
    assert!(matches!(r.ops[4], NativeOp::ReadClientRect));
}
