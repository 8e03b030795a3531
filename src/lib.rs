//! Scheduling and execution-control core of a small kernel: a stride
//! scheduler over a ready queue, and a processor that dispatches tasks and
//! serves the address-space and bookkeeping requests of the running task.
use vstd::prelude::*;

pub mod config;
pub mod manager;
pub mod mm;
pub mod processor;
pub mod task;

use crate::manager::TaskManager;
use crate::processor::Processor;

verus! {

/// The kernel-wide scheduling state, created once at boot and handed to
/// every entry point.
pub struct Kernel {
    pub manager: TaskManager,
    pub processor: Processor,
}

impl Kernel {
    pub open spec fn wf(&self) -> bool {
        self.manager.wf() && self.processor.wf()
    }

    /// An empty ready queue and an idle processor.
    pub fn new() -> (r: Kernel)
        ensures
            r.wf(),
            r.manager@ == Seq::<crate::task::Task>::empty(),
            r.processor.current is None,
    {
        Kernel { manager: TaskManager::new(), processor: Processor::new() }
    }
}

} // verus!
