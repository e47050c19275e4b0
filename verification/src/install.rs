//! The installer's decision rule: whether the sensor tool ends up
//! available, given what the probes of the system found. Running the
//! package manager and the probes themselves happens outside the library;
//! their results are handed in as plain values.
use vstd::prelude::*;

verus! {

/// Ensures the sensor tool's availability, as a decision over the captured
/// probe results.
pub struct InstallerUtil;

impl InstallerUtil {
    /// Whether the caller may attempt an installation at all: it must run
    /// as the superuser or hold password-less elevation.
    pub fn may_install(running_as_root: bool, sudo_ok: bool) -> (r: bool)
        ensures
            r == (running_as_root || sudo_ok),
    {
        running_as_root || sudo_ok
    }

    /// Whether the sensor tool is available after the installation pass:
    /// it already was, or the caller was allowed to install and the
    /// installation succeeded.
    pub fn ensure_sensors_installed(
        sensors_available: bool,
        running_as_root: bool,
        sudo_ok: bool,
        install_succeeded: bool,
    ) -> (r: bool)
        ensures
            r == (sensors_available || ((running_as_root || sudo_ok) && install_succeeded)),
    {
        if sensors_available {
            true
        } else if !Self::may_install(running_as_root, sudo_ok) {
            false
        } else {
            install_succeeded
        }
    }
}

} // verus!
