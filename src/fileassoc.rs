//! File association outcomes that need no system call.

use vstd::prelude::*;
use vstd::string::*;

verus! {

pub const INSTALLER_ASSOCIATIONS: &'static str = "File associations should be configured during installation";

pub const BUNDLE_ASSOCIATIONS: &'static str = "File associations are configured in the app bundle";

/// On Windows, associations come from the installer; nothing is done at run
/// time.
pub fn register_windows_associations() -> (r: Result<String, String>)
    ensures
        r matches Ok(m) && m@ == INSTALLER_ASSOCIATIONS@,
{
    Ok(String::from_str(INSTALLER_ASSOCIATIONS))
}

} // verus!
