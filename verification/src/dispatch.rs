//! The selection dispatcher: turns one host-reported menu selection into the
//! signals to emit on the application's outbound event channel. It holds no
//! state of its own and only reads the registry, so concurrent invocations
//! are safe; delivery of the returned signals is the host layer's concern and
//! is fire-and-forget.

use vstd::prelude::*;
use crate::registry::{CommandTable, lookup_in};

verus! {

/// A named event with an empty payload, delivered to whatever listeners the
/// application layer has registered.
pub struct Signal {
    pub name: String,
    pub payload: Vec<u8>,
}

/// Routes one reported selection. An id bound in the registry yields exactly
/// one signal, named by its binding, with an empty payload, and nothing else;
/// an id absent from the registry (a platform-standard action, or anything
/// unrecognized) yields no emission at all and is not an error.
pub fn on_selected(table: &CommandTable, id: &str) -> (emissions: Vec<Signal>)
    ensures
        match lookup_in(table@, id@) {
            Some(sig) => emissions@.len() == 1 && emissions@[0].name@ == sig && emissions@[0].payload@
                == Seq::<u8>::empty(),
            None => emissions@.len() == 0,
        },
{
    let mut emissions: Vec<Signal> = Vec::new();
    match table.lookup(id) {
        Some(name) => {
            emissions.push(Signal { name, payload: Vec::new() });
        },
        None => {},
    }
    emissions
}

} // verus!
