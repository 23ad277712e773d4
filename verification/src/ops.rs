//! The vocabulary between the reconciler and the native layer: the operations
//! a render asks the embedding to perform, the outcome the embedding reports
//! for window creation, and how a render ended.

use vstd::prelude::*;

verus! {

/// One native call the embedding performs on the reconciler's behalf. Each
/// variant stands for one invocation of the underlying windowing API; a
/// render hands back the exact sequence to issue, in order.
#[derive(Clone, Debug, PartialEq)]
pub enum NativeOp {
    // Win32
    /// Look up the module handle of the running executable.
    GetModuleHandle,
    /// Register the window class (idempotent re-registration is accepted).
    RegisterClass,
    /// Create the native window with a UTF-16 title and the declared frame.
    CreateWindow { title: Vec<u16>, left: i32, top: i32, width: i32, height: i32 },
    /// Show the window.
    ShowWindow,
    /// Re-apply the UTF-16 window title.
    SetWindowText { title: Vec<u16> },
    /// Re-apply position and size without changing the Z-order.
    SetWindowPos { left: i32, top: i32, width: i32, height: i32 },
    /// Enable or disable input delivery to the window.
    EnableInput { enabled: bool },
    /// Read the client rectangle back, for diagnostics only.
    ReadClientRect,
    /// Destroy the window synchronously.
    DestroyWindow { handle: u64 },
    // AppKit
    /// Make the application a regular, activatable one.
    SetActivationPolicy,
    /// Install the minimal menu bar (Quit, Close Window) once per process.
    InstallMenu,
    /// Activate the application and bring it to the front.
    ActivateApp,
    /// Create the titled, closable, miniaturizable, resizable window.
    CreateNsWindow { left: i32, top: i32, width: i32, height: i32 },
    /// Re-apply the window title.
    SetTitle { title: String },
    /// Re-apply the window frame (shared with the iOS window).
    SetFrame { left: i32, top: i32, width: i32, height: i32 },
    /// Derive mouse transparency from the declared input state.
    SetIgnoresMouse { ignores: bool },
    /// Make the window key and bring it to the front.
    OrderFront,
    /// Read the content rectangle back, for diagnostics only.
    ReadContentRect,
    /// Close and release the window.
    CloseWindow { handle: u64 },
    // UIKit
    /// Scan the connected scenes for a window scene.
    QueryWindowScene,
    /// Create the window, through the found scene or the frame fallback.
    CreateUiWindow { via_scene: bool, left: i32, top: i32, width: i32, height: i32 },
    /// Create the fresh root view controller with its default background.
    CreateController,
    /// Attach the controller to the window.
    SetRootController,
    /// Enable or disable user interaction on the window.
    SetUserInteraction { enabled: bool },
    /// Make the window key and visible.
    MakeKeyAndVisible,
    /// Hide the window; its controller reference is released alongside.
    HideWindow { handle: u64 },
    // Android activity
    /// Apply the full declared state to the activity in one transaction:
    /// title, the touchable flag, and the layout size.
    ConfigureActivity { title: String, width: i32, height: i32, enabled: bool },
    /// Re-apply the activity title.
    SetActivityTitle { title: String },
    /// Fetch, mutate and re-apply the layout size attributes as a unit.
    SetLayoutSize { width: i32, height: i32 },
    /// Set or clear the not-touchable window flag bit.
    SetTouchFlag { enabled: bool },
    /// Move the task to the background; the OS keeps owning the activity.
    MoveTaskToBack,
}

/// How one render ended. Every case is recoverable: the next render retries
/// from a consistent position.
#[derive(Clone, Copy, Debug, PartialEq, Eq, Structural)]
pub enum RenderStatus {
    /// The planned operations cover the whole render.
    Completed,
    /// Window creation (or the module lookup before it) failed; the render
    /// returned early and the next one retries the creation.
    CreateFailed,
    /// The platform demands its UI thread and the render ran elsewhere; no
    /// native call was attempted.
    OffMainThread,
    /// No activity reference is published; reconciliation suspends until the
    /// OS provides one.
    AwaitingActivity,
}

/// What the native layer answered to this render's creation request, where
/// one was issued. A render that creates nothing ignores every field.
#[derive(Clone, Copy, Debug, PartialEq, Eq, Structural)]
pub struct CreateOutcome {
    /// Whether the module-handle lookup before the Win32 class registration
    /// succeeded; the other platforms have no such stage.
    pub module_ok: bool,
    /// Whether window creation itself succeeded.
    pub ok: bool,
    /// The identity of the window the platform created.
    pub handle: u64,
    /// The identity of the root view controller created beside an iOS window.
    pub controller: u64,
    /// Whether a connected window scene was found for the iOS constructor.
    pub scene_found: bool,
}

/// The surroundings of one render that the reconciler cannot influence:
/// which thread the host scheduler chose, whether the process-wide menu gate
/// has been claimed, and whether an Android activity is currently published.
#[derive(Clone, Copy, Debug, PartialEq, Eq, Structural)]
pub struct RenderEnv {
    pub on_main_thread: bool,
    pub menu_installed: bool,
    pub activity_present: bool,
}

/// The render's answer to the embedding: the native calls to issue, in order,
/// and how the render ended.
#[derive(Clone, Debug, PartialEq)]
pub struct RenderReport {
    pub ops: Vec<NativeOp>,
    pub status: RenderStatus,
}

/// Whether the operation brings a native window or activity configuration
/// into existence. The Android configuration transaction counts: it is that
/// platform's create path.
pub open spec fn is_create_op(op: NativeOp) -> bool {
    ||| op is CreateWindow
    ||| op is CreateNsWindow
    ||| op is CreateUiWindow
    ||| op is ConfigureActivity
}

/// Whether the operation tears the native resource down or pushes it out of
/// sight: the hide/destroy path of each platform.
pub open spec fn is_teardown_op(op: NativeOp) -> bool {
    ||| op is DestroyWindow
    ||| op is CloseWindow
    ||| op is HideWindow
    ||| op is MoveTaskToBack
}

/// Whether any element of the sequence creates a native resource.
pub open spec fn contains_create(ops: Seq<NativeOp>) -> bool {
    exists|i: int| 0 <= i < ops.len() && is_create_op(ops[i])
}

/// Whether any element of the sequence tears the native resource down.
pub open spec fn contains_teardown(ops: Seq<NativeOp>) -> bool {
    exists|i: int| 0 <= i < ops.len() && is_teardown_op(ops[i])
}

} // verus!
