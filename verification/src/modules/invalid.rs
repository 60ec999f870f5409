use crate::module_trait::Module;
use crate::{ModuleOutput, SnapshotView};
use vstd::prelude::*;
use vstd::string::StringExecFns;

verus! {

/// The placeholder for a configured name no module kind answers to: its
/// snapshot is a fixed diagnostic text and it never recomputes.
pub struct InvalidModule {
    pub value: String,
}

/// The diagnostic text shown for an unknown module name.
pub open spec fn invalid_value_seq(name: Seq<char>) -> Seq<char> {
    "error: invalid module name: "@ + name
}

impl InvalidModule {
    pub fn new(name: &str) -> (r: Self)
        ensures
            r.value@ == invalid_value_seq(name@),
    {
        let mut value = String::from_str("error: invalid module name: ");
        value.append(name);
        InvalidModule { value }
    }
}

impl Module for InvalidModule {
    open spec fn snapshot_spec(&self) -> SnapshotView {
        SnapshotView { value: self.value@, icon: None, icon_color: None }
    }

    open spec fn signal_spec(&self) -> Option<u8> {
        None
    }

    fn get_value(&self) -> (r: ModuleOutput) {
        ModuleOutput { value: self.value.clone(), icon: None, icon_color: None }
    }

    fn signal_id(&self) -> (r: Option<u8>) {
        None
    }
}

} // verus!
