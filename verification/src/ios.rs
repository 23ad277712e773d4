//! The UIKit adapter: reconciles the descriptor against a native window and
//! its root view controller on the designated UI thread.
//!
//! A render off the main thread fails gracefully without touching anything.
//! A first visible render scans the connected scenes for a window scene and
//! creates the window through it, falling back to the frame-only constructor
//! on systems without scenes; it then attaches a freshly created root view
//! controller and configures the frame. Every visible render re-applies
//! frame and user interaction and makes the window key and visible. A hidden
//! render hides the window and deliberately releases both the stored window
//! reference and its controller — handle presence and creation flag move
//! together, so a later show creates afresh — and hiding again while nothing
//! is shown is a pure no-op.

use vstd::prelude::*;

use crate::descriptor::{Platform, WindowDescriptor, APPLE_DEFAULT_POS};
use crate::ops::{CreateOutcome, NativeOp, RenderReport, RenderStatus};
use crate::reconcile::{decide, spec_decide, Action, InstanceState};

verus! {

/// The persistent state after one UIKit render: window and controller live
/// and die together.
pub open spec fn ios_next_state(
    desc: WindowDescriptor,
    s: InstanceState,
    outcome: CreateOutcome,
    on_main_thread: bool,
) -> InstanceState {
    if !on_main_thread {
        s
    } else {
        match spec_decide(Platform::Ios, desc.visible, s.initialized) {
            Action::NoOp => s,
            Action::Create => if outcome.ok {
                InstanceState {
                    handle: Some(outcome.handle),
                    controller: Some(outcome.controller),
                    initialized: true,
                }
            } else {
                s
            },
            Action::Update => s,
            Action::Hide => InstanceState::spec_cleared(),
        }
    }
}

/// How one UIKit render ends.
pub open spec fn ios_status(
    desc: WindowDescriptor,
    s: InstanceState,
    outcome: CreateOutcome,
    on_main_thread: bool,
) -> RenderStatus {
    if !on_main_thread {
        RenderStatus::OffMainThread
    } else {
        match spec_decide(Platform::Ios, desc.visible, s.initialized) {
            Action::Create => if outcome.ok {
                RenderStatus::Completed
            } else {
                RenderStatus::CreateFailed
            },
            _ => RenderStatus::Completed,
        }
    }
}

/// The declared frame as one operation payload check.
pub open spec fn ios_frame_op(op: NativeOp, desc: WindowDescriptor) -> bool {
    op == (NativeOp::SetFrame {
        left: desc.spec_left_or(APPLE_DEFAULT_POS),
        top: desc.spec_top_or(APPLE_DEFAULT_POS),
        width: desc.width,
        height: desc.height,
    })
}

/// The creation operations standing at the front of a first visible render:
/// scene query, creation through the scene found (or the frame fallback),
/// the fresh root view controller, its attachment, and the configured frame.
pub open spec fn ios_create_ops(
    ops: Seq<NativeOp>,
    desc: WindowDescriptor,
    outcome: CreateOutcome,
) -> bool {
    &&& ops.len() >= 2
    &&& ops[0] == NativeOp::QueryWindowScene
    &&& ops[1] == (NativeOp::CreateUiWindow {
        via_scene: outcome.scene_found,
        left: desc.spec_left_or(APPLE_DEFAULT_POS),
        top: desc.spec_top_or(APPLE_DEFAULT_POS),
        width: desc.width,
        height: desc.height,
    })
    &&& outcome.ok ==> {
        &&& ops.len() >= 5
        &&& ops[2] == NativeOp::CreateController
        &&& ops[3] == NativeOp::SetRootController
        &&& ios_frame_op(ops[4], desc)
    }
}

/// The three in-place update operations of a visible render, standing at
/// index `k`: frame, user interaction, and make-key-and-visible.
pub open spec fn ios_update_ops_at(ops: Seq<NativeOp>, k: int, desc: WindowDescriptor) -> bool {
    &&& ops.len() == k + 3
    &&& ios_frame_op(ops[k], desc)
    &&& ops[k + 1] == (NativeOp::SetUserInteraction { enabled: desc.enabled })
    &&& ops[k + 2] == NativeOp::MakeKeyAndVisible
}

/// The exact operation sequence of one UIKit render, for every reconciler
/// case, thread placement and creation outcome.
pub open spec fn ios_render_ops(
    ops: Seq<NativeOp>,
    desc: WindowDescriptor,
    s: InstanceState,
    outcome: CreateOutcome,
    on_main_thread: bool,
) -> bool {
    if !on_main_thread {
        ops.len() == 0
    } else {
        match spec_decide(Platform::Ios, desc.visible, s.initialized) {
            Action::NoOp => ops.len() == 0,
            Action::Create => {
                &&& ios_create_ops(ops, desc, outcome)
                &&& if outcome.ok {
                    ios_update_ops_at(ops, 5, desc)
                } else {
                    ops.len() == 2
                }
            },
            Action::Update => ios_update_ops_at(ops, 0, desc),
            Action::Hide => ops.len() == 1 && ops[0] == (NativeOp::HideWindow {
                handle: s.handle.unwrap(),
            }),
        }
    }
}

/// Appends the three in-place update operations for the descriptor.
fn push_ios_update_ops(ops: &mut Vec<NativeOp>, desc: &WindowDescriptor)
    ensures
        final(ops)@.len() == old(ops)@.len() + 3,
        forall|j: int| 0 <= j < old(ops)@.len() ==> final(ops)@[j] == old(ops)@[j],
        ios_update_ops_at(final(ops)@, old(ops)@.len() as int, *desc),
{
    ops.push(
        NativeOp::SetFrame {
            left: desc.left_or(APPLE_DEFAULT_POS),
            top: desc.top_or(APPLE_DEFAULT_POS),
            width: desc.width,
            height: desc.height,
        },
    );
    ops.push(NativeOp::SetUserInteraction { enabled: desc.enabled });
    ops.push(NativeOp::MakeKeyAndVisible);
}

/// One render against the UIKit window. `on_main_thread` says whether the
/// host scheduler placed this render on the UI thread; off it, the render
/// refuses to touch the native layer and reports so.
pub fn render_ios(
    desc: &WindowDescriptor,
    state: &mut InstanceState,
    on_main_thread: bool,
    outcome: &CreateOutcome,
) -> (r: RenderReport)
    requires
        old(state).wf(Platform::Ios),
    ensures
        final(state).wf(Platform::Ios),
        *final(state) == ios_next_state(*desc, *old(state), *outcome, on_main_thread),
        r.status == ios_status(*desc, *old(state), *outcome, on_main_thread),
        ios_render_ops(r.ops@, *desc, *old(state), *outcome, on_main_thread),
{
    let mut ops: Vec<NativeOp> = Vec::new();
    if !on_main_thread {
        return RenderReport { ops, status: RenderStatus::OffMainThread };
    }
    match decide(Platform::Ios, desc.visible, state.initialized) {
        Action::NoOp => RenderReport { ops, status: RenderStatus::Completed },
        Action::Create => {
            ops.push(NativeOp::QueryWindowScene);
            ops.push(
                NativeOp::CreateUiWindow {
                    via_scene: outcome.scene_found,
                    left: desc.left_or(APPLE_DEFAULT_POS),
                    top: desc.top_or(APPLE_DEFAULT_POS),
                    width: desc.width,
                    height: desc.height,
                },
            );
            if !outcome.ok {
                return RenderReport { ops, status: RenderStatus::CreateFailed };
            }
            ops.push(NativeOp::CreateController);
            ops.push(NativeOp::SetRootController);
            ops.push(
                NativeOp::SetFrame {
                    left: desc.left_or(APPLE_DEFAULT_POS),
                    top: desc.top_or(APPLE_DEFAULT_POS),
                    width: desc.width,
                    height: desc.height,
                },
            );
            state.handle = Some(outcome.handle);
            state.controller = Some(outcome.controller);
            state.initialized = true;
            push_ios_update_ops(&mut ops, desc);
            RenderReport { ops, status: RenderStatus::Completed }
        },
        Action::Update => {
            push_ios_update_ops(&mut ops, desc);
            RenderReport { ops, status: RenderStatus::Completed }
        },
        Action::Hide => {
            let handle = state.handle.unwrap();
            ops.push(NativeOp::HideWindow { handle });
            state.handle = None;
            state.controller = None;
            state.initialized = false;
            RenderReport { ops, status: RenderStatus::Completed }
        },
    }
}

} // verus!
