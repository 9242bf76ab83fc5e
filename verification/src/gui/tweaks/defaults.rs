//! The tweaks that start out checked.

use vstd::prelude::*;

verus! {

/// The ids of the recommended tweaks.
pub const RECOMMENDED_TWEAKS: [&'static str; 3] = [
    "disable_telemetry",
    "disable_advertising_id",
    "disable_copilot",
];

/// The recommended ids, each by its characters.
pub open spec fn recommended_ids() -> Seq<Seq<char>> {
    RECOMMENDED_TWEAKS@.map_values(|id: &'static str| id@)
}

} // verus!
