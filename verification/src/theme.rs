//! The appearance flags and the toggle transition.
//!
//! The host OS stores two light/dark flags as 0/1 integers. Toggling negates
//! the app-level flag, and — only when the mirror preference is set — also
//! negates the system-level flag. The two flags are negated independently of
//! each other: flags that start out of sync stay out of sync.

use vstd::prelude::*;

verus! {

/// What one toggle writes for a flag currently holding `x`: `0` becomes `1`,
/// anything nonzero becomes `0`.
pub open spec fn flip_spec(x: u32) -> u32 {
    if x == 0 {
        1
    } else {
        0
    }
}

/// Negates one appearance flag as stored by the OS (`0` dark, nonzero light).
pub fn flip_flag(x: u32) -> (r: u32)
    ensures
        r == flip_spec(x),
{
    if x == 0 {
        1
    } else {
        0
    }
}

/// The two persisted appearance flags, as the OS stores them.
#[derive(Clone, Copy, Debug, PartialEq, Eq, Structural)]
pub struct AppearanceFlags {
    /// "AppsUseLightTheme": light rendering for applications.
    pub apps_use_light: u32,
    /// "SystemUsesLightTheme": light rendering for the system shell.
    pub system_uses_light: u32,
}

impl AppearanceFlags {
    /// Valid flag values: the OS only ever holds 0 or 1.
    pub open spec fn wf(self) -> bool {
        (self.apps_use_light == 0 || self.apps_use_light == 1)
            && (self.system_uses_light == 0 || self.system_uses_light == 1)
    }
}

/// The flags after one toggle: the app flag is negated, and the system flag
/// is negated exactly when `mirror` is set.
pub open spec fn toggle_spec(f: AppearanceFlags, mirror: bool) -> AppearanceFlags {
    AppearanceFlags {
        apps_use_light: flip_spec(f.apps_use_light),
        system_uses_light: if mirror {
            flip_spec(f.system_uses_light)
        } else {
            f.system_uses_light
        },
    }
}

/// Computes the flag values one toggle writes back: the app flag is always
/// negated, the system flag only when `mirror` is set, each from its own
/// current value.
pub fn toggle_flags(f: AppearanceFlags, mirror: bool) -> (r: AppearanceFlags)
    ensures
        r == toggle_spec(f, mirror),
        f.wf() ==> r.wf(),
{
    AppearanceFlags {
        apps_use_light: flip_flag(f.apps_use_light),
        system_uses_light: if mirror {
            flip_flag(f.system_uses_light)
        } else {
            f.system_uses_light
        },
    }
}

/// Two toggles with the same mirror choice restore well-formed flags to their
/// original values.
pub proof fn lemma_double_toggle(f: AppearanceFlags, mirror: bool)
    requires
        f.wf(),
    ensures
        toggle_spec(toggle_spec(f, mirror), mirror) == f,
{
}

} // verus!
