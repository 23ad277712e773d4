//! The Win32 adapter: reconciles the descriptor against a native window
//! created synchronously on the calling thread.
//!
//! A visible render first creates the window where none exists (module-handle
//! lookup, class registration, creation with the full descriptor), then
//! re-applies title, position/size and input state and reads the client
//! rectangle back; a hidden render destroys the window. Creation failures
//! leave the persistent state untouched, so the next render retries.

use vstd::prelude::*;

use crate::descriptor::{Platform, WindowDescriptor, WIN_DEFAULT_POS};
use crate::ops::{CreateOutcome, NativeOp, RenderReport, RenderStatus};
use crate::reconcile::{decide, spec_decide, Action, InstanceState};
use crate::utf16::{encode_title, null_terminated_utf16};

verus! {

/// The window-creation message the system sends while the window comes into
/// existence.
pub const WM_CREATE: u32 = 0x0001;

/// The window-destruction message the system sends while the window is torn
/// down.
pub const WM_DESTROY: u32 = 0x0002;

/// What the window procedure does with one message.
#[derive(Clone, Copy, Debug, PartialEq, Eq, Structural)]
pub enum WndProcAction {
    /// Store the instance back-reference carried in the creation parameters
    /// into the window's user data.
    StoreInstance,
    /// Post the quit signal to the thread's message loop.
    PostQuit,
    /// Hand the message to the default window procedure.
    DefaultHandling,
}

/// The window procedure's dispatch: the creation message stores the instance
/// back-reference, the destruction message posts quit, and every other
/// message goes to the default procedure.
pub fn window_proc_action(msg: u32) -> (a: WndProcAction)
    ensures
        a is StoreInstance <==> msg == WM_CREATE,
        a is PostQuit <==> msg == WM_DESTROY,
        a is DefaultHandling <==> (msg != WM_CREATE && msg != WM_DESTROY),
{
    if msg == WM_CREATE {
        WndProcAction::StoreInstance
    } else if msg == WM_DESTROY {
        WndProcAction::PostQuit
    } else {
        WndProcAction::DefaultHandling
    }
}

/// Whether this render's creation request went through: the module-handle
/// lookup and the window creation itself must both succeed.
pub open spec fn win_create_succeeds(outcome: CreateOutcome) -> bool {
    outcome.module_ok && outcome.ok
}

/// The persistent state after one Win32 render.
pub open spec fn win_next_state(
    desc: WindowDescriptor,
    s: InstanceState,
    outcome: CreateOutcome,
) -> InstanceState {
    match spec_decide(Platform::Windows, desc.visible, s.initialized) {
        Action::NoOp => s,
        Action::Create => if win_create_succeeds(outcome) {
            InstanceState { handle: Some(outcome.handle), controller: None, initialized: true }
        } else {
            s
        },
        Action::Update => s,
        Action::Hide => InstanceState::spec_cleared(),
    }
}

/// How one Win32 render ends.
pub open spec fn win_status(
    desc: WindowDescriptor,
    s: InstanceState,
    outcome: CreateOutcome,
) -> RenderStatus {
    match spec_decide(Platform::Windows, desc.visible, s.initialized) {
        Action::Create => if win_create_succeeds(outcome) {
            RenderStatus::Completed
        } else {
            RenderStatus::CreateFailed
        },
        _ => RenderStatus::Completed,
    }
}

/// Whether `op` creates the window exactly as the descriptor declares it:
/// null-terminated UTF-16 title, declared frame, system-default position
/// where the caller left it out.
pub open spec fn win_create_op(op: NativeOp, desc: WindowDescriptor) -> bool {
    &&& op matches NativeOp::CreateWindow { title, left, top, width, height }
    &&& title@ == null_terminated_utf16(desc.title@)
    &&& left == desc.spec_left_or(WIN_DEFAULT_POS)
    &&& top == desc.spec_top_or(WIN_DEFAULT_POS)
    &&& width == desc.width
    &&& height == desc.height
}

/// The five in-place update operations of a visible render, standing at
/// index `k`: show, title, position/size without Z-order change, input
/// state, and the diagnostic client-rectangle read.
pub open spec fn win_update_ops_at(ops: Seq<NativeOp>, k: int, desc: WindowDescriptor) -> bool {
    &&& ops.len() == k + 5
    &&& ops[k] == NativeOp::ShowWindow
    &&& ops[k + 1] matches NativeOp::SetWindowText { title } && title@ == null_terminated_utf16(
        desc.title@,
    )
    &&& ops[k + 2] == (NativeOp::SetWindowPos {
        left: desc.spec_left_or(WIN_DEFAULT_POS),
        top: desc.spec_top_or(WIN_DEFAULT_POS),
        width: desc.width,
        height: desc.height,
    })
    &&& ops[k + 3] == (NativeOp::EnableInput { enabled: desc.enabled })
    &&& ops[k + 4] == NativeOp::ReadClientRect
}

/// The exact operation sequence of one Win32 render, for every reconciler
/// case and creation outcome.
pub open spec fn win_render_ops(
    ops: Seq<NativeOp>,
    desc: WindowDescriptor,
    s: InstanceState,
    outcome: CreateOutcome,
) -> bool {
    match spec_decide(Platform::Windows, desc.visible, s.initialized) {
        Action::NoOp => ops.len() == 0,
        Action::Create => {
            if !outcome.module_ok {
                ops.len() == 1 && ops[0] == NativeOp::GetModuleHandle
            } else if !outcome.ok {
                &&& ops.len() == 3
                &&& ops[0] == NativeOp::GetModuleHandle
                &&& ops[1] == NativeOp::RegisterClass
                &&& win_create_op(ops[2], desc)
            } else {
                &&& ops[0] == NativeOp::GetModuleHandle
                &&& ops[1] == NativeOp::RegisterClass
                &&& win_create_op(ops[2], desc)
                &&& win_update_ops_at(ops, 3, desc)
            }
        },
        Action::Update => win_update_ops_at(ops, 0, desc),
        Action::Hide => ops.len() == 1 && ops[0] == (NativeOp::DestroyWindow {
            handle: s.handle.unwrap(),
        }),
    }
}

/// Appends the five in-place update operations for the descriptor.
fn push_win_update_ops(ops: &mut Vec<NativeOp>, desc: &WindowDescriptor)
    ensures
        final(ops)@.len() == old(ops)@.len() + 5,
        forall|j: int| 0 <= j < old(ops)@.len() ==> final(ops)@[j] == old(ops)@[j],
        win_update_ops_at(final(ops)@, old(ops)@.len() as int, *desc),
{
    ops.push(NativeOp::ShowWindow);
    let title = encode_title(desc.title.as_str());
    ops.push(NativeOp::SetWindowText { title });
    ops.push(
        NativeOp::SetWindowPos {
            left: desc.left_or(WIN_DEFAULT_POS),
            top: desc.top_or(WIN_DEFAULT_POS),
            width: desc.width,
            height: desc.height,
        },
    );
    ops.push(NativeOp::EnableInput { enabled: desc.enabled });
    ops.push(NativeOp::ReadClientRect);
}

/// One render against the Win32 window: decides create, update-in-place,
/// destroy or nothing from the descriptor and the persisted state, returns
/// the native calls to issue in order, and moves the state as the creation
/// outcome dictates.
pub fn render_windows(
    desc: &WindowDescriptor,
    state: &mut InstanceState,
    outcome: &CreateOutcome,
) -> (r: RenderReport)
    requires
        old(state).wf(Platform::Windows),
    ensures
        final(state).wf(Platform::Windows),
        *final(state) == win_next_state(*desc, *old(state), *outcome),
        r.status == win_status(*desc, *old(state), *outcome),
        win_render_ops(r.ops@, *desc, *old(state), *outcome),
{
    let mut ops: Vec<NativeOp> = Vec::new();
    match decide(Platform::Windows, desc.visible, state.initialized) {
        Action::NoOp => RenderReport { ops, status: RenderStatus::Completed },
        Action::Create => {
            ops.push(NativeOp::GetModuleHandle);
            if !outcome.module_ok {
                return RenderReport { ops, status: RenderStatus::CreateFailed };
            }
            ops.push(NativeOp::RegisterClass);
            let title = encode_title(desc.title.as_str());
            ops.push(
                NativeOp::CreateWindow {
                    title,
                    left: desc.left_or(WIN_DEFAULT_POS),
                    top: desc.top_or(WIN_DEFAULT_POS),
                    width: desc.width,
                    height: desc.height,
                },
            );
            if !outcome.ok {
                return RenderReport { ops, status: RenderStatus::CreateFailed };
            }
            state.handle = Some(outcome.handle);
            state.initialized = true;
            push_win_update_ops(&mut ops, desc);
            RenderReport { ops, status: RenderStatus::Completed }
        },
        Action::Update => {
            push_win_update_ops(&mut ops, desc);
            RenderReport { ops, status: RenderStatus::Completed }
        },
        Action::Hide => {
            let handle = state.handle.unwrap();
            ops.push(NativeOp::DestroyWindow { handle });
            state.handle = None;
            state.initialized = false;
            RenderReport { ops, status: RenderStatus::Completed }
        },
    }
}

} // verus!
