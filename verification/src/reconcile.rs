//! The platform-agnostic reconciler: from the declared visibility and the
//! persisted `initialized` flag, decide which native operation this render
//! performs, and say how the persistent state moves once the platform has
//! answered.

use vstd::prelude::*;

use crate::descriptor::Platform;

verus! {

/// The one operation a render performs against the native resource.
#[derive(Clone, Copy, Debug, PartialEq, Eq, Structural)]
pub enum Action {
    /// Nothing to do: the window is neither shown nor created.
    NoOp,
    /// Bring a native window into existence with the full descriptor.
    Create,
    /// Re-apply title, size, position and input state to the existing window.
    Update,
    /// Destroy the native window, or move the activity to the background.
    Hide,
}

/// The record the hosting runtime keeps alive for one component instance
/// across renders.
///
/// `handle` and `controller` are the identities the platform reported for the
/// native window and, on iOS, its root view controller; the reconciler treats
/// them as opaque. `initialized` distinguishes first-render creation from
/// update-in-place.
#[derive(Clone, Copy, Debug, PartialEq, Eq, Structural)]
pub struct InstanceState {
    pub handle: Option<u64>,
    pub controller: Option<u64>,
    pub initialized: bool,
}

/// Which of the four reconciliation actions the render takes, from the
/// declared visibility and the persisted flag.
///
/// The one platform asymmetry: the Android activity is owned by the OS, so a
/// hidden component moves the task to the background on every render with
/// `visible == false`, whether or not anything was set up before.
pub open spec fn spec_decide(platform: Platform, visible: bool, initialized: bool) -> Action {
    if visible {
        if initialized {
            Action::Update
        } else {
            Action::Create
        }
    } else {
        if platform is Android {
            Action::Hide
        } else if initialized {
            Action::Hide
        } else {
            Action::NoOp
        }
    }
}

/// Executable twin of [`spec_decide`].
pub fn decide(platform: Platform, visible: bool, initialized: bool) -> (a: Action)
    ensures
        a == spec_decide(platform, visible, initialized),
{
    if visible {
        if initialized {
            Action::Update
        } else {
            Action::Create
        }
    } else {
        match platform {
            Platform::Android => Action::Hide,
            _ => {
                if initialized {
                    Action::Hide
                } else {
                    Action::NoOp
                }
            },
        }
    }
}

impl InstanceState {
    /// Well-formedness of the persisted record on each platform: the handle
    /// exists exactly while the instance counts as initialized, the iOS root
    /// view controller lives and dies with its window, and the Android
    /// reconciler owns no handle at all (it addresses the activity by
    /// reference).
    pub open spec fn wf(self, platform: Platform) -> bool {
        match platform {
            Platform::Windows | Platform::MacOs => {
                &&& self.controller is None
                &&& (self.initialized <==> self.handle is Some)
            },
            Platform::Ios => {
                &&& (self.initialized <==> self.handle is Some)
                &&& (self.initialized <==> self.controller is Some)
            },
            Platform::Android => self.handle is None && self.controller is None,
        }
    }

    /// The state before any render: nothing created, nothing initialized.
    pub fn new() -> (s: InstanceState)
        ensures
            s == InstanceState::spec_cleared(),
            forall|p: Platform| s.wf(p),
    {
        InstanceState { handle: None, controller: None, initialized: false }
    }

    /// The state after a destroy/hide-and-release path: the handle is gone
    /// and the next visible render will create afresh.
    pub open spec fn spec_cleared() -> InstanceState {
        InstanceState { handle: None, controller: None, initialized: false }
    }
}

/// A process-wide one-time-execution gate, as needed for the lazily installed
/// macOS menu bar: the first claimant runs the guarded setup, every later one
/// passes it by.
pub struct OnceGate {
    pub done: bool,
}

impl OnceGate {
    /// A gate nobody has claimed yet.
    pub fn new() -> (g: OnceGate)
        ensures
            !g.done,
    {
        OnceGate { done: false }
    }

    /// Takes this gate. A true result falls to exactly one claimant, which
    /// then performs the guarded setup; afterwards every claim is refused.
    pub fn claim(&mut self) -> (first: bool)
        ensures
            final(self).done,
            first == !old(self).done,
    {
        let first = !self.done;
        self.done = true;
        first
    }
}

} // verus!
