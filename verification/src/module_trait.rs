use crate::{ModuleOutput, SnapshotView};
use vstd::prelude::*;

verus! {

/// The capability a module presents to the coordinator: a snapshot of its
/// current display state, and the correlation id under which the command
/// channel can address it, if any. Recomputation is driven from outside; a
/// snapshot never performs any probing of its own.
pub trait Module {
    /// The snapshot this module would hand out right now.
    spec fn snapshot_spec(&self) -> SnapshotView;

    /// The correlation id this module answers to, if any.
    spec fn signal_spec(&self) -> Option<u8>;

    /// The current display state, without any probing.
    fn get_value(&self) -> (r: ModuleOutput)
        ensures
            r@ == self.snapshot_spec(),
    ;

    /// The correlation id this module answers to, if any.
    fn signal_id(&self) -> (r: Option<u8>)
        ensures
            r == self.signal_spec(),
    ;
}

} // verus!
