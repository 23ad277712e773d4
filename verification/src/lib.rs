//! A declarative window component core.
//!
//! A host runtime re-evaluates ("renders") a window component with a fresh
//! [`descriptor::WindowDescriptor`] on every pass. This crate decides, from the
//! descriptor and the state persisted between renders, which native windowing
//! operations the current render must perform on the target platform, and how
//! the persistent state changes once the platform has reported the outcome of
//! window creation. The native calls themselves (Win32, AppKit, UIKit, or the
//! Android activity through JNI) are issued by the embedding; this crate hands
//! it an exact plan of operations and absorbs the results.

pub mod activity;
pub mod descriptor;
pub mod droid;
pub mod ios;
pub mod laws;
pub mod mac;
pub mod ops;
pub mod reconcile;
pub mod utf16;
pub mod win;
