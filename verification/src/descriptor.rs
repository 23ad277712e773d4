//! The declarative description of a window, supplied fresh on every render.

use vstd::prelude::*;

verus! {

/// The platform whose native windowing API backs the component.
#[derive(Clone, Copy, Debug, PartialEq, Eq, Structural)]
pub enum Platform {
    Windows,
    MacOs,
    Ios,
    Android,
}

/// Sentinel position handed to the Win32 window constructor when the caller
/// leaves the position to the system (the CW_USEDEFAULT convention).
pub const WIN_DEFAULT_POS: i32 = -2147483648;

/// Position used on the Apple platforms when the caller leaves the window
/// position to the component.
pub const APPLE_DEFAULT_POS: i32 = 100;

/// What the window should look like this render: immutable for the duration
/// of one reconciliation pass.
///
/// `left` and `top` are `None` when the caller leaves the position to the
/// platform; the Android activity has no screen position of its own, so there
/// they stay `None`.
pub struct WindowDescriptor {
    pub title: String,
    pub width: i32,
    pub height: i32,
    pub left: Option<i32>,
    pub top: Option<i32>,
    pub visible: bool,
    pub enabled: bool,
}

impl Platform {
    /// Whether the platform's windowing API may only be driven from the
    /// designated UI thread.
    pub open spec fn spec_needs_main_thread(self) -> bool {
        self is MacOs || self is Ios
    }

    /// Executable twin of [`Platform::spec_needs_main_thread`].
    pub fn needs_main_thread(self) -> (r: bool)
        ensures
            r == self.spec_needs_main_thread(),
    {
        match self {
            Platform::MacOs => true,
            Platform::Ios => true,
            Platform::Windows => false,
            Platform::Android => false,
        }
    }
}

impl WindowDescriptor {
    /// The horizontal position handed to the native layer: the declared one,
    /// or the platform's default when the caller left it out.
    pub open spec fn spec_left_or(self, default: i32) -> i32 {
        match self.left {
            Some(l) => l,
            None => default,
        }
    }

    /// The vertical position handed to the native layer.
    pub open spec fn spec_top_or(self, default: i32) -> i32 {
        match self.top {
            Some(t) => t,
            None => default,
        }
    }

    /// Executable twin of [`WindowDescriptor::spec_left_or`].
    pub fn left_or(&self, default: i32) -> (r: i32)
        ensures
            r == self.spec_left_or(default),
    {
        match self.left {
            Some(l) => l,
            None => default,
        }
    }

    /// Executable twin of [`WindowDescriptor::spec_top_or`].
    pub fn top_or(&self, default: i32) -> (r: i32)
        ensures
            r == self.spec_top_or(default),
    {
        match self.top {
            Some(t) => t,
            None => default,
        }
    }

    /// The descriptor a render starts from when the caller declares nothing:
    /// each platform's customary title, size and position, visible and
    /// accepting input.
    pub fn default_for(platform: Platform) -> (d: WindowDescriptor)
        ensures
            d.visible,
            d.enabled,
            platform is Windows ==> d.title@ == "Window"@ && d.width == 800 && d.height == 600
                && d.left is None && d.top is None,
            platform is MacOs ==> d.title@ == "Window"@ && d.width == 800 && d.height == 600
                && d.left == Some(100i32) && d.top == Some(100i32),
            platform is Ios ==> d.title@ == "Window example"@ && d.width == 375 && d.height == 667
                && d.left == Some(100i32) && d.top == Some(100i32),
            platform is Android ==> d.title@ == "Window"@ && d.width == 360 && d.height == 640
                && d.left is None && d.top is None,
    {
        match platform {
            Platform::Windows => WindowDescriptor {
                title: "Window".to_owned(),
                width: 800,
                height: 600,
                left: None,
                top: None,
                visible: true,
                enabled: true,
            },
            Platform::MacOs => WindowDescriptor {
                title: "Window".to_owned(),
                width: 800,
                height: 600,
                left: Some(100),
                top: Some(100),
                visible: true,
                enabled: true,
            },
            Platform::Ios => WindowDescriptor {
                title: "Window example".to_owned(),
                width: 375,
                height: 667,
                left: Some(100),
                top: Some(100),
                visible: true,
                enabled: true,
            },
            Platform::Android => WindowDescriptor {
                title: "Window".to_owned(),
                width: 360,
                height: 640,
                left: None,
                top: None,
                visible: true,
                enabled: true,
            },
        }
    }
}

} // verus!
