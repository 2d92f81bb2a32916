//! The functions that a host lends to a plugin instance, and the registry
//! that keeps one set of them for each instance.

use crate::boundary::crosses_boundary;
use vstd::hash_map::StringHashMap;
use vstd::prelude::*;

verus! {

/// The functions of the host that a plugin instance may call. Every text
/// handed to the host can cross the boundary; every answer comes back as
/// the bytes of the host's own buffer. Nothing is assumed of what the host
/// answers.
pub trait HostCallbacks {
    /// Hands an event and its payload to the front end. The answer tells
    /// whether the host took it.
    fn send_to_frontend(&self, event: &str, payload: &str) -> (taken: bool)
        requires
            crosses_boundary(event@),
            crosses_boundary(payload@),
    ;

    /// Asks the host for a setting of the application. `None` stands for
    /// a null answer.
    fn get_app_config(&self, key: &str) -> (reply: Option<Vec<u8>>)
        requires
            crosses_boundary(key@),
    ;

    /// Sends a message to another plugin and waits for its answer. `None`
    /// stands for a null answer.
    fn call_other_plugin(&self, plugin_id: &str, message: &str) -> (reply: Option<Vec<u8>>)
        requires
            crosses_boundary(plugin_id@),
            crosses_boundary(message@),
    ;
}

/// What is handed to the front end in one call: the name of an event and
/// the payload that goes with it.
#[derive(Debug, Clone)]
pub struct Dispatch {
    pub event: String,
    pub payload: String,
}

/// The callback tables of the instances, by instance id, in a hash map.
#[verifier::reject_recursive_types(H)]
pub struct CallbackRegistry<H> {
    table: StringHashMap<H>,
}

impl<H> View for CallbackRegistry<H> {
    type V = Map<Seq<char>, H>;

    closed spec fn view(&self) -> Map<Seq<char>, H> {
        self.table@
    }
}

impl<H> CallbackRegistry<H> {
    /// A registry without tables.
    pub fn new() -> (registry: Self)
        ensures
            registry@ == Map::<Seq<char>, H>::empty(),
    {
        CallbackRegistry { table: StringHashMap::new() }
    }
}

/// Stores the table of an instance, in place of any table that the
/// instance had. This always succeeds.
pub fn set_host_callbacks<H>(
    registry: &mut CallbackRegistry<H>,
    instance_id: &str,
    callbacks: H,
) -> (stored: Result<(), String>)
    ensures
        stored is Ok,
        final(registry)@ == old(registry)@.insert(instance_id@, callbacks),
{
    registry.table.insert(instance_id.to_string(), callbacks);
    Ok(())
}

/// A copy of the table of an instance.
pub fn get_host_callbacks<H: Copy>(registry: &CallbackRegistry<H>, instance_id: &str) -> (found:
    Option<H>)
    ensures
        found == (if registry@.contains_key(instance_id@) {
            Some(registry@[instance_id@])
        } else {
            None::<H>
        }),
{
    match registry.table.get(instance_id) {
        Some(callbacks) => Some(*callbacks),
        None => None,
    }
}

/// Removes the table of an instance and tells whether there was one.
pub fn clear_host_callbacks<H>(registry: &mut CallbackRegistry<H>, instance_id: &str) -> (existed:
    bool)
    ensures
        existed == old(registry)@.contains_key(instance_id@),
        final(registry)@ == old(registry)@.remove(instance_id@),
{
    let existed = registry.table.contains_key(instance_id);
    registry.table.remove(instance_id);
    existed
}

} // verus!
