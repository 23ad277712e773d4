use window_reconciler::descriptor::{Platform, WindowDescriptor};
use window_reconciler::ios::render_ios;
use window_reconciler::mac::{menu_blueprint, render_macos};
use window_reconciler::ops::{CreateOutcome, NativeOp, RenderStatus};
use window_reconciler::reconcile::{InstanceState, OnceGate};

fn ok_outcome(handle: u64, controller: u64) -> CreateOutcome {
    CreateOutcome { module_ok: true, ok: true, handle, controller, scene_found: true }
}

struct MockNsWindow {
    title: String,
    frame: (i32, i32, i32, i32),
    ignores_mouse: bool,
}

fn apply_mac(native: &mut Option<MockNsWindow>, op: &NativeOp) {
    match op {
        NativeOp::CreateNsWindow { left, top, width, height } => {
            *native = Some(MockNsWindow {
                title: String::new(),
                frame: (*left, *top, *width, *height),
                ignores_mouse: false,
            });
        }
        NativeOp::SetTitle { title } => native.as_mut().unwrap().title = title.clone(),
        NativeOp::SetFrame { left, top, width, height } => {
            native.as_mut().unwrap().frame = (*left, *top, *width, *height);
        }
        NativeOp::SetIgnoresMouse { ignores } => {
            native.as_mut().unwrap().ignores_mouse = *ignores;
        }
        NativeOp::CloseWindow { .. } => *native = None,
        _ => {}
    }
}

#[test]
fn scenario_three_renders_reach_last_descriptor() {
    // Render 1 shows the defaults, render 2 retitles, render 3 resizes and
    // enables input: one creation, two pure updates, and the native window
    // ends with the last descriptor's title, size and input state.
    let mut d = WindowDescriptor::default_for(Platform::MacOs);
    let mut state = InstanceState::new();
    let mut gate = OnceGate::new();
    let mut native: Option<MockNsWindow> = None;
    let mut creates = 0;
    let mut update_rounds = 0;

    for render in 0..3 {
        if render == 1 {
            d.title = "\u{4F60}\u{597D}".to_owned();
        }
        if render == 2 {
            d.width = 1000;
            d.height = 800;
            d.enabled = true;
        }
        let r = render_macos(&d, &mut state, &mut gate, true, &ok_outcome(1, 0));
        assert_eq!(r.status, RenderStatus::Completed);
        creates += r
            .ops
            .iter()
            .filter(|op| matches!(op, NativeOp::CreateNsWindow { .. }))
            .count();
        if !r.ops.iter().any(|op| matches!(op, NativeOp::CreateNsWindow { .. })) {
            update_rounds += 1;
        }
        for op in &r.ops {
            apply_mac(&mut native, op);
        }
    }

    assert_eq!(creates, 1);
    assert_eq!(update_rounds, 2);
    let w = native.expect("the window exists after three visible renders");
    assert_eq!(w.title, "\u{4F60}\u{597D}");
    assert_eq!(w.frame, (100, 100, 1000, 800));
    assert!(!w.ignores_mouse, "enabled input means mouse events are not ignored");
}

#[test]
fn menu_bar_is_installed_once_per_process() {
    let d = WindowDescriptor::default_for(Platform::MacOs);
    let mut state = InstanceState::new();
    let mut gate = OnceGate::new();

    let r1 = render_macos(&d, &mut state, &mut gate, true, &ok_outcome(1, 0));
    assert_eq!(
        r1.ops.iter().filter(|op| matches!(op, NativeOp::InstallMenu)).count(),
        1
    );
    assert!(matches!(r1.ops[0], NativeOp::SetActivationPolicy));

    let r2 = render_macos(&d, &mut state, &mut gate, true, &ok_outcome(1, 0));
    assert_eq!(
        r2.ops.iter().filter(|op| matches!(op, NativeOp::InstallMenu)).count(),
        0
    );
    assert!(matches!(r2.ops[0], NativeOp::ActivateApp));
}

#[test]
fn menu_blueprint_holds_quit_and_close_window() {
    let items = menu_blueprint();
    assert_eq!(items.len(), 2);
    assert_eq!(items[0].title, "Quit");
    assert_eq!(items[0].key, "q");
    assert!(items[0].command_modifier);
    assert_eq!(items[1].title, "Close Window");
    assert_eq!(items[1].key, "w");
    assert!(items[1].command_modifier);
}

#[test]
fn off_main_thread_render_touches_nothing() {
    let d = WindowDescriptor::default_for(Platform::MacOs);
    let mut state = InstanceState::new();
    let mut gate = OnceGate::new();
    let r = render_macos(&d, &mut state, &mut gate, false, &ok_outcome(1, 0));
    assert_eq!(r.status, RenderStatus::OffMainThread);
    assert!(r.ops.is_empty());
    assert!(!state.initialized);
    assert!(!gate.done);
}

#[test]
fn mac_hide_closes_the_window() {
    let shown = WindowDescriptor::default_for(Platform::MacOs);
    let mut hidden = WindowDescriptor::default_for(Platform::MacOs);
    hidden.visible = false;
    let mut state = InstanceState::new();
    let mut gate = OnceGate::new();

    render_macos(&shown, &mut state, &mut gate, true, &ok_outcome(8, 0));
    let r = render_macos(&hidden, &mut state, &mut gate, true, &ok_outcome(9, 0));
    assert_eq!(r.ops, vec![NativeOp::CloseWindow { handle: 8 }]);
    assert_eq!(state.handle, None);
    assert!(!state.initialized);
}

#[test]
fn ios_create_attaches_controller_and_uses_scene() {
    let d = WindowDescriptor::default_for(Platform::Ios);
    let mut state = InstanceState::new();
    let r = render_ios(&d, &mut state, true, &ok_outcome(4, 14));

    assert!(matches!(r.ops[0], NativeOp::QueryWindowScene));
    assert!(matches!(r.ops[1], NativeOp::CreateUiWindow { via_scene: true, .. }));
    assert!(matches!(r.ops[2], NativeOp::CreateController));
    assert!(matches!(r.ops[3], NativeOp::SetRootController));
    assert_eq!(state.handle, Some(4));
    assert_eq!(state.controller, Some(14));
    assert!(state.initialized);
    assert!(r.ops.iter().any(|op| matches!(op, NativeOp::MakeKeyAndVisible)));
}

#[test]
fn ios_without_scene_falls_back_to_frame_constructor() {
    let d = WindowDescriptor::default_for(Platform::Ios);
    let mut state = InstanceState::new();
    let mut outcome = ok_outcome(4, 14);
    outcome.scene_found = false;
    let r = render_ios(&d, &mut state, true, &outcome);
    match &r.ops[1] {
        NativeOp::CreateUiWindow { via_scene, left, top, width, height } => {
            assert!(!via_scene);
            assert_eq!((*left, *top, *width, *height), (100, 100, 375, 667));
        }
        other => panic!("expected the creation call, found {:?}", other),
    }
}

#[test]
fn ios_update_reflects_input_state() {
    let mut d = WindowDescriptor::default_for(Platform::Ios);
    d.enabled = false;
    let mut state = InstanceState::new();
    render_ios(&d, &mut state, true, &ok_outcome(4, 14));
    let r = render_ios(&d, &mut state, true, &ok_outcome(4, 14));
    assert_eq!(r.ops.len(), 3);
    assert_eq!(r.ops[1], NativeOp::SetUserInteraction { enabled: false });
}

#[test]
fn ios_hide_releases_controller_and_hiding_again_is_a_noop() {
    let shown = WindowDescriptor::default_for(Platform::Ios);
    let mut hidden = WindowDescriptor::default_for(Platform::Ios);
    hidden.visible = false;
    let mut state = InstanceState::new();

    render_ios(&shown, &mut state, true, &ok_outcome(4, 14));
    let r1 = render_ios(&hidden, &mut state, true, &ok_outcome(0, 0));
    assert_eq!(r1.ops, vec![NativeOp::HideWindow { handle: 4 }]);
    assert_eq!(state.handle, None);
    assert_eq!(state.controller, None);
    assert!(!state.initialized);

    let r2 = render_ios(&hidden, &mut state, true, &ok_outcome(0, 0));
    assert!(r2.ops.is_empty());
    assert_eq!(r2.status, RenderStatus::Completed);
}

#[test]
fn ios_show_after_hide_creates_again() {
    let shown = WindowDescriptor::default_for(Platform::Ios);
    let mut hidden = WindowDescriptor::default_for(Platform::Ios);
    hidden.visible = false;
    let mut state = InstanceState::new();

    render_ios(&shown, &mut state, true, &ok_outcome(4, 14));
    render_ios(&hidden, &mut state, true, &ok_outcome(0, 0));
    let r = render_ios(&shown, &mut state, true, &ok_outcome(5, 15));
    assert!(r.ops.iter().any(|op| matches!(op, NativeOp::CreateUiWindow { .. })));
    assert_eq!(state.handle, Some(5), "a fresh window, never update-after-hide");
    assert_eq!(state.controller, Some(15));
}
