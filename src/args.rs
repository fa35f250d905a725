//! What the command line gives the run.

use vstd::prelude::*;

verus! {

/// Run containerized Wasm on a Linux system.
#[derive(Debug)]
pub struct Args {
    /// Amount of cgroups/namespaces to create; computed from the active
    /// resource limits where not set. Never zero.
    pub count: Option<usize>,
    /// Cgroup directory to use; derived from `/proc/self/cgroup` where not set.
    pub cgroup: Option<Vec<u8>>,
    /// Path to a Wasm command component.
    pub wasm: Vec<u8>,
}

impl Args {
    pub open spec fn wf(&self) -> bool {
        self.count != Some(0usize)
    }

    /// The arguments, or `None` where an explicit count is zero.
    pub fn new(count: Option<usize>, cgroup: Option<Vec<u8>>, wasm: Vec<u8>) -> (r: Option<Args>)
        ensures
            count == Some(0usize) <==> r is None,
            r matches Some(a) ==> a.wf() && a.count == count && a.cgroup == cgroup && a.wasm
                == wasm,
    {
        match count {
            Some(0) => None,
            _ => Some(Args { count, cgroup, wasm }),
        }
    }
}

} // verus!
