//! Where the kernel state is read from.
//!
//! The read API serves three values of the state-consistency module, each
//! under a path of its own below the base URL of the API. Reading them is the
//! driver's work; which address to read is decided here.

use vstd::prelude::*;
use vstd::string::*;

verus! {

/// A value of the kernel state that the read API serves.
#[derive(Debug, Clone, Copy, PartialEq, Eq, Structural)]
pub enum StateValue {
    /// The number of the slot that queries currently reflect.
    LatestVisibleSlotNumber,
    /// The root hashes of the rollup's state.
    LatestStateRoot,
    /// The height of the rollup.
    LatestRollupHeight,
}

/// The path under which the state-consistency module serves its state.
pub open spec fn state_path() -> Seq<char> {
    "/modules/state-consistency/state/"@
}

impl StateValue {
    /// The name of the value in the read API.
    pub open spec fn path_name(self) -> Seq<char> {
        match self {
            StateValue::LatestVisibleSlotNumber => "latest-visible-slot-number"@,
            StateValue::LatestStateRoot => "latest-state-root"@,
            StateValue::LatestRollupHeight => "latest-rollup-height"@,
        }
    }

    /// The name of the value in the read API.
    pub fn name(&self) -> (name: &'static str)
        ensures
            name@ == self.path_name(),
    {
        match self {
            StateValue::LatestVisibleSlotNumber => "latest-visible-slot-number",
            StateValue::LatestStateRoot => "latest-state-root",
            StateValue::LatestRollupHeight => "latest-rollup-height",
        }
    }
}

/// The address of a value of the kernel state.
pub open spec fn state_url(api_url: Seq<char>, value: StateValue) -> Seq<char> {
    api_url + state_path() + value.path_name() + "/"@
}

/// The address from which `value` is read: the base URL of the API, the path
/// of the state-consistency module's state, the name of the value, and a
/// closing slash.
pub fn state_value_url(api_url: &str, value: StateValue) -> (url: String)
    ensures
        url@ == state_url(api_url@, value),
{
    let mut url = api_url.to_owned();
    url.append("/modules/state-consistency/state/");
    url.append(value.name());
    url.append("/");
    url
}

} // verus!
