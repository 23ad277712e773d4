//! The Android adapter: reconciles the descriptor against the activity that
//! the OS owns and publishes on its own schedule.
//!
//! Nothing happens until an activity reference is published; a render
//! without one suspends and reports so. A first visible render applies
//! title, touchable flag and layout size to the activity in one
//! transaction; later visible renders re-apply the three fields in separate
//! transactions that fail independently. A hidden render moves the task to
//! the background on every pass — the activity's lifecycle belongs to the
//! OS, so there is nothing to destroy.

use vstd::prelude::*;

use crate::descriptor::{Platform, WindowDescriptor};
use crate::ops::{CreateOutcome, NativeOp, RenderReport, RenderStatus};
use crate::reconcile::{decide, spec_decide, Action, InstanceState};

verus! {

/// The window-flag bit that suppresses touch delivery; set while the
/// declared input state is disabled.
pub const FLAG_NOT_TOUCHABLE: u32 = 0x10;

/// What the activity window's flag word becomes when the touchable state is
/// applied: the not-touchable bit is cleared to enable touch and set to
/// disable it, and no other bit moves.
pub fn apply_touch_flag(flags: u32, enabled: bool) -> (r: u32)
    ensures
        enabled ==> r == flags & !FLAG_NOT_TOUCHABLE,
        !enabled ==> r == flags | FLAG_NOT_TOUCHABLE,
        (r & FLAG_NOT_TOUCHABLE == 0) <==> enabled,
        r & !FLAG_NOT_TOUCHABLE == flags & !FLAG_NOT_TOUCHABLE,
{
    proof {
        assert((flags & !0x10u32) & 0x10u32 == 0) by (bit_vector);
        assert((flags | 0x10u32) & 0x10u32 == 0x10u32) by (bit_vector);
        assert((flags & !0x10u32) & !0x10u32 == flags & !0x10u32) by (bit_vector);
        assert((flags | 0x10u32) & !0x10u32 == flags & !0x10u32) by (bit_vector);
    }
    if enabled {
        flags & !FLAG_NOT_TOUCHABLE
    } else {
        flags | FLAG_NOT_TOUCHABLE
    }
}

/// The persistent state after one Android render: no handle is ever owned,
/// only the initialized flag moves.
pub open spec fn droid_next_state(
    desc: WindowDescriptor,
    s: InstanceState,
    outcome: CreateOutcome,
    activity_present: bool,
) -> InstanceState {
    if !activity_present {
        s
    } else {
        match spec_decide(Platform::Android, desc.visible, s.initialized) {
            Action::NoOp => s,
            Action::Create => if outcome.ok {
                InstanceState { handle: None, controller: None, initialized: true }
            } else {
                s
            },
            Action::Update => s,
            Action::Hide => InstanceState::spec_cleared(),
        }
    }
}

/// How one Android render ends.
pub open spec fn droid_status(
    desc: WindowDescriptor,
    s: InstanceState,
    outcome: CreateOutcome,
    activity_present: bool,
) -> RenderStatus {
    if !activity_present {
        RenderStatus::AwaitingActivity
    } else {
        match spec_decide(Platform::Android, desc.visible, s.initialized) {
            Action::Create => if outcome.ok {
                RenderStatus::Completed
            } else {
                RenderStatus::CreateFailed
            },
            _ => RenderStatus::Completed,
        }
    }
}

/// The three per-field update transactions of a visible render, standing at
/// index `k`: title, layout size, touchable flag — each fails independently
/// of the others.
pub open spec fn droid_update_ops_at(ops: Seq<NativeOp>, k: int, desc: WindowDescriptor) -> bool {
    &&& ops.len() == k + 3
    &&& ops[k] matches NativeOp::SetActivityTitle { title } && title@ == desc.title@
    &&& ops[k + 1] == (NativeOp::SetLayoutSize { width: desc.width, height: desc.height })
    &&& ops[k + 2] == (NativeOp::SetTouchFlag { enabled: desc.enabled })
}

/// The exact operation sequence of one Android render, for every reconciler
/// case, activity availability and setup outcome.
pub open spec fn droid_render_ops(
    ops: Seq<NativeOp>,
    desc: WindowDescriptor,
    s: InstanceState,
    outcome: CreateOutcome,
    activity_present: bool,
) -> bool {
    if !activity_present {
        ops.len() == 0
    } else {
        match spec_decide(Platform::Android, desc.visible, s.initialized) {
            Action::NoOp => ops.len() == 0,
            Action::Create => {
                &&& ops.len() == 1
                &&& ops[0] matches NativeOp::ConfigureActivity { title, width, height, enabled }
                &&& title@ == desc.title@
                &&& width == desc.width
                &&& height == desc.height
                &&& enabled == desc.enabled
            },
            Action::Update => droid_update_ops_at(ops, 0, desc),
            Action::Hide => ops.len() == 1 && ops[0] == NativeOp::MoveTaskToBack,
        }
    }
}

/// One render against the Android activity. `activity_present` says whether
/// the process-wide activity slot currently holds a live reference; without
/// one the render suspends (reporting [`RenderStatus::AwaitingActivity`])
/// and the host re-renders once the slot is published.
pub fn render_android(
    desc: &WindowDescriptor,
    state: &mut InstanceState,
    activity_present: bool,
    outcome: &CreateOutcome,
) -> (r: RenderReport)
    requires
        old(state).wf(Platform::Android),
    ensures
        final(state).wf(Platform::Android),
        *final(state) == droid_next_state(*desc, *old(state), *outcome, activity_present),
        r.status == droid_status(*desc, *old(state), *outcome, activity_present),
        droid_render_ops(r.ops@, *desc, *old(state), *outcome, activity_present),
{
    let mut ops: Vec<NativeOp> = Vec::new();
    if !activity_present {
        return RenderReport { ops, status: RenderStatus::AwaitingActivity };
    }
    match decide(Platform::Android, desc.visible, state.initialized) {
        Action::NoOp => RenderReport { ops, status: RenderStatus::Completed },
        Action::Create => {
            ops.push(
                NativeOp::ConfigureActivity {
                    title: desc.title.clone(),
                    width: desc.width,
                    height: desc.height,
                    enabled: desc.enabled,
                },
            );
            if !outcome.ok {
                return RenderReport { ops, status: RenderStatus::CreateFailed };
            }
            state.initialized = true;
            RenderReport { ops, status: RenderStatus::Completed }
        },
        Action::Update => {
            ops.push(NativeOp::SetActivityTitle { title: desc.title.clone() });
            ops.push(NativeOp::SetLayoutSize { width: desc.width, height: desc.height });
            ops.push(NativeOp::SetTouchFlag { enabled: desc.enabled });
            RenderReport { ops, status: RenderStatus::Completed }
        },
        Action::Hide => {
            ops.push(NativeOp::MoveTaskToBack);
            state.initialized = false;
            RenderReport { ops, status: RenderStatus::Completed }
        },
    }
}

} // verus!
