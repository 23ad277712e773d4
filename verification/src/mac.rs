//! The AppKit adapter: reconciles the descriptor against a native window on
//! the designated UI thread.
//!
//! A render off the main thread fails gracefully without touching anything.
//! A visible render lazily makes the application a regular one and installs
//! the minimal menu bar exactly once per process, activates the application,
//! creates the window where none exists, then re-applies title, frame and
//! mouse transparency and brings the window to the front; a hidden render
//! closes and releases the window.

use vstd::prelude::*;

use crate::descriptor::{Platform, WindowDescriptor, APPLE_DEFAULT_POS};
use crate::ops::{CreateOutcome, NativeOp, RenderReport, RenderStatus};
use crate::reconcile::{decide, spec_decide, Action, InstanceState, OnceGate};

verus! {

/// One entry of the minimal menu bar: a titled item with its key
/// equivalent, optionally under the command modifier.
pub struct MenuItemBlueprint {
    pub title: String,
    pub key: String,
    pub command_modifier: bool,
}

/// What the one-time [`NativeOp::InstallMenu`] operation installs: the
/// application menu's Quit item and the window menu's Close Window item,
/// each under its standard command-key accelerator.
pub fn menu_blueprint() -> (items: Vec<MenuItemBlueprint>)
    ensures
        items@.len() == 2,
        items@[0].title@ == "Quit"@,
        items@[0].key@ == "q"@,
        items@[0].command_modifier,
        items@[1].title@ == "Close Window"@,
        items@[1].key@ == "w"@,
        items@[1].command_modifier,
{
    let mut items: Vec<MenuItemBlueprint> = Vec::new();
    items.push(
        MenuItemBlueprint { title: "Quit".to_owned(), key: "q".to_owned(), command_modifier: true },
    );
    items.push(
        MenuItemBlueprint {
            title: "Close Window".to_owned(),
            key: "w".to_owned(),
            command_modifier: true,
        },
    );
    items
}

/// The persistent state after one AppKit render.
pub open spec fn mac_next_state(
    desc: WindowDescriptor,
    s: InstanceState,
    outcome: CreateOutcome,
    on_main_thread: bool,
) -> InstanceState {
    if !on_main_thread {
        s
    } else {
        match spec_decide(Platform::MacOs, desc.visible, s.initialized) {
            Action::NoOp => s,
            Action::Create => if outcome.ok {
                InstanceState { handle: Some(outcome.handle), controller: None, initialized: true }
            } else {
                s
            },
            Action::Update => s,
            Action::Hide => InstanceState::spec_cleared(),
        }
    }
}

/// How one AppKit render ends.
pub open spec fn mac_status(
    desc: WindowDescriptor,
    s: InstanceState,
    outcome: CreateOutcome,
    on_main_thread: bool,
) -> RenderStatus {
    if !on_main_thread {
        RenderStatus::OffMainThread
    } else {
        match spec_decide(Platform::MacOs, desc.visible, s.initialized) {
            Action::Create => if outcome.ok {
                RenderStatus::Completed
            } else {
                RenderStatus::CreateFailed
            },
            _ => RenderStatus::Completed,
        }
    }
}

/// How many operations a visible render spends on application activation:
/// the one-time activation policy and menu installation, then the
/// every-render activation.
pub open spec fn mac_prefix_len(menu_installed: bool) -> int {
    if menu_installed {
        1
    } else {
        3
    }
}

/// The activation operations opening every visible render.
pub open spec fn mac_activation_ops(ops: Seq<NativeOp>, menu_installed: bool) -> bool {
    if menu_installed {
        ops.len() >= 1 && ops[0] == NativeOp::ActivateApp
    } else {
        &&& ops.len() >= 3
        &&& ops[0] == NativeOp::SetActivationPolicy
        &&& ops[1] == NativeOp::InstallMenu
        &&& ops[2] == NativeOp::ActivateApp
    }
}

/// Whether `op` creates the window with the declared frame and the fixed
/// style (titled, closable, miniaturizable, resizable).
pub open spec fn mac_create_op(op: NativeOp, desc: WindowDescriptor) -> bool {
    op == (NativeOp::CreateNsWindow {
        left: desc.spec_left_or(APPLE_DEFAULT_POS),
        top: desc.spec_top_or(APPLE_DEFAULT_POS),
        width: desc.width,
        height: desc.height,
    })
}

/// The five in-place update operations of a visible render, standing at
/// index `k`: title, frame, mouse transparency derived from the declared
/// input state, bring-to-front, and the diagnostic content-rectangle read.
pub open spec fn mac_update_ops_at(ops: Seq<NativeOp>, k: int, desc: WindowDescriptor) -> bool {
    &&& ops.len() == k + 5
    &&& ops[k] matches NativeOp::SetTitle { title } && title@ == desc.title@
    &&& ops[k + 1] == (NativeOp::SetFrame {
        left: desc.spec_left_or(APPLE_DEFAULT_POS),
        top: desc.spec_top_or(APPLE_DEFAULT_POS),
        width: desc.width,
        height: desc.height,
    })
    &&& ops[k + 2] == (NativeOp::SetIgnoresMouse { ignores: !desc.enabled })
    &&& ops[k + 3] == NativeOp::OrderFront
    &&& ops[k + 4] == NativeOp::ReadContentRect
}

/// The exact operation sequence of one AppKit render, for every reconciler
/// case, thread placement, menu-gate state and creation outcome.
pub open spec fn mac_render_ops(
    ops: Seq<NativeOp>,
    desc: WindowDescriptor,
    s: InstanceState,
    outcome: CreateOutcome,
    on_main_thread: bool,
    menu_installed: bool,
) -> bool {
    if !on_main_thread {
        ops.len() == 0
    } else {
        match spec_decide(Platform::MacOs, desc.visible, s.initialized) {
            Action::NoOp => ops.len() == 0,
            Action::Create => {
                let p = mac_prefix_len(menu_installed);
                &&& mac_activation_ops(ops, menu_installed)
                &&& if outcome.ok {
                    ops.len() == p + 6 && mac_create_op(ops[p], desc) && mac_update_ops_at(
                        ops,
                        p + 1,
                        desc,
                    )
                } else {
                    ops.len() == p + 1 && mac_create_op(ops[p], desc)
                }
            },
            Action::Update => {
                let p = mac_prefix_len(menu_installed);
                &&& mac_activation_ops(ops, menu_installed)
                &&& mac_update_ops_at(ops, p, desc)
            },
            Action::Hide => ops.len() == 1 && ops[0] == (NativeOp::CloseWindow {
                handle: s.handle.unwrap(),
            }),
        }
    }
}

/// Opens a visible render: claims the process-wide gate — the first
/// claimant makes the application regular and installs the menu bar — and
/// activates the application.
fn push_mac_activation_ops(ops: &mut Vec<NativeOp>, gate: &mut OnceGate)
    requires
        old(ops)@.len() == 0,
    ensures
        final(gate).done,
        final(ops)@.len() == mac_prefix_len(old(gate).done),
        mac_activation_ops(final(ops)@, old(gate).done),
{
    if gate.claim() {
        ops.push(NativeOp::SetActivationPolicy);
        ops.push(NativeOp::InstallMenu);
    }
    ops.push(NativeOp::ActivateApp);
}

/// Appends the five in-place update operations for the descriptor.
fn push_mac_update_ops(ops: &mut Vec<NativeOp>, desc: &WindowDescriptor)
    ensures
        final(ops)@.len() == old(ops)@.len() + 5,
        forall|j: int| 0 <= j < old(ops)@.len() ==> final(ops)@[j] == old(ops)@[j],
        mac_update_ops_at(final(ops)@, old(ops)@.len() as int, *desc),
{
    ops.push(NativeOp::SetTitle { title: desc.title.clone() });
    ops.push(
        NativeOp::SetFrame {
            left: desc.left_or(APPLE_DEFAULT_POS),
            top: desc.top_or(APPLE_DEFAULT_POS),
            width: desc.width,
            height: desc.height,
        },
    );
    ops.push(NativeOp::SetIgnoresMouse { ignores: !desc.enabled });
    ops.push(NativeOp::OrderFront);
    ops.push(NativeOp::ReadContentRect);
}

/// One render against the AppKit window. `on_main_thread` says whether the
/// host scheduler placed this render on the UI thread; off it, the render
/// refuses to touch the native layer and reports so. The process-wide menu
/// gate is claimed on the first visible main-thread render, which alone
/// installs the menu bar.
pub fn render_macos(
    desc: &WindowDescriptor,
    state: &mut InstanceState,
    gate: &mut OnceGate,
    on_main_thread: bool,
    outcome: &CreateOutcome,
) -> (r: RenderReport)
    requires
        old(state).wf(Platform::MacOs),
    ensures
        final(state).wf(Platform::MacOs),
        *final(state) == mac_next_state(*desc, *old(state), *outcome, on_main_thread),
        r.status == mac_status(*desc, *old(state), *outcome, on_main_thread),
        mac_render_ops(
            r.ops@,
            *desc,
            *old(state),
            *outcome,
            on_main_thread,
            old(gate).done,
        ),
        final(gate).done == (old(gate).done || (on_main_thread && desc.visible)),
{
    let mut ops: Vec<NativeOp> = Vec::new();
    if !on_main_thread {
        return RenderReport { ops, status: RenderStatus::OffMainThread };
    }
    match decide(Platform::MacOs, desc.visible, state.initialized) {
        Action::NoOp => RenderReport { ops, status: RenderStatus::Completed },
        Action::Create => {
            push_mac_activation_ops(&mut ops, gate);
            ops.push(
                NativeOp::CreateNsWindow {
                    left: desc.left_or(APPLE_DEFAULT_POS),
                    top: desc.top_or(APPLE_DEFAULT_POS),
                    width: desc.width,
                    height: desc.height,
                },
            );
            if !outcome.ok {
                return RenderReport { ops, status: RenderStatus::CreateFailed };
            }
            state.handle = Some(outcome.handle);
            state.initialized = true;
            push_mac_update_ops(&mut ops, desc);
            RenderReport { ops, status: RenderStatus::Completed }
        },
        Action::Update => {
            push_mac_activation_ops(&mut ops, gate);
            push_mac_update_ops(&mut ops, desc);
            RenderReport { ops, status: RenderStatus::Completed }
        },
        Action::Hide => {
            let handle = state.handle.unwrap();
            ops.push(NativeOp::CloseWindow { handle });
            state.handle = None;
            state.initialized = false;
            RenderReport { ops, status: RenderStatus::Completed }
        },
    }
}

} // verus!
