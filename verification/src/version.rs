//! Version information the daemon reports about itself.

use vstd::prelude::*;

verus! {

/// The running version's standing against the released versions.
#[derive(Debug, PartialEq)]
pub struct AppVersionInfo {
    /// Whether the running version is still supported.
    pub supported: bool,
    pub latest_stable: String,
    pub latest_beta: String,
    /// A version the user should upgrade to, if there is one.
    pub suggested_upgrade: Option<String>,
}

impl Clone for AppVersionInfo {
    fn clone(&self) -> (r: Self)
        ensures
            r == *self,
    {
        AppVersionInfo {
            supported: self.supported,
            latest_stable: self.latest_stable.clone(),
            latest_beta: self.latest_beta.clone(),
            suggested_upgrade: match &self.suggested_upgrade {
                Some(version) => Some(version.clone()),
                None => None,
            },
        }
    }
}

} // verus!
