//! Requests about the log.

use vstd::prelude::*;

verus! {

#[derive(Debug, Clone)]
pub struct UpdateLogSettingsInput {
    pub enabled: bool,
    pub directory: String,
}

} // verus!
