use vstd::prelude::*;

verus! {

/// Kept so that callers of the old free-function interface still link.
/// Every operation is reached through `PluginInstanceContext`.
pub fn placeholder_for_compatibility() {
}

} // verus!
