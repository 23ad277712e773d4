use window_reconciler::descriptor::{Platform, WindowDescriptor};
use window_reconciler::reconcile::{decide, Action, InstanceState, OnceGate};

fn all_platforms() -> Vec<Platform> {
    vec![Platform::Windows, Platform::MacOs, Platform::Ios, Platform::Android]
}

#[test]
fn decide_hidden_uncreated_is_noop_except_android() {
    for p in all_platforms() {
        let a = decide(p, false, false);
        if p == Platform::Android {
            assert_eq!(a, Action::Hide);
        } else {
            assert_eq!(a, Action::NoOp);
        }
    }
}

#[test]
fn decide_visible_uncreated_is_create() {
    for p in all_platforms() {
        assert_eq!(decide(p, true, false), Action::Create);
    }
}

#[test]
fn decide_visible_initialized_is_update() {
    for p in all_platforms() {
        assert_eq!(decide(p, true, true), Action::Update);
    }
}

#[test]
fn decide_hidden_initialized_is_hide() {
    for p in all_platforms() {
        assert_eq!(decide(p, false, true), Action::Hide);
    }
}

#[test]
fn fresh_state_owns_nothing() {
    let s = InstanceState::new();
    assert_eq!(s.handle, None);
    assert_eq!(s.controller, None);
    assert!(!s.initialized);
}

#[test]
fn once_gate_runs_exactly_once() {
    let mut gate = OnceGate::new();
    assert!(gate.claim());
    assert!(!gate.claim());
    assert!(!gate.claim());
}

#[test]
fn default_descriptors_per_platform() {
    let w = WindowDescriptor::default_for(Platform::Windows);
    assert_eq!(w.title, "Window");
    assert_eq!((w.width, w.height), (800, 600));
    assert_eq!((w.left, w.top), (None, None));
    assert!(w.visible && w.enabled);

    let m = WindowDescriptor::default_for(Platform::MacOs);
    assert_eq!((m.width, m.height), (800, 600));
    assert_eq!((m.left, m.top), (Some(100), Some(100)));

    let i = WindowDescriptor::default_for(Platform::Ios);
    assert_eq!(i.title, "Window example");
    assert_eq!((i.width, i.height), (375, 667));

    let a = WindowDescriptor::default_for(Platform::Android);
    assert_eq!((a.width, a.height), (360, 640));
    assert_eq!((a.left, a.top), (None, None));
}
