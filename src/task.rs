//! The schedulable unit and the saved state it carries.
use vstd::prelude::*;

use crate::config::MAX_SYSCALL_NUM;
use crate::mm::MemorySet;

verus! {

/// Lifecycle state of a task.
#[derive(Clone, Copy, Debug, PartialEq, Eq, Structural)]
pub enum TaskStatus {
    Ready,
    Running,
    Blocked,
    Exited,
}

/// Callee-saved registers, used only by the context-switch primitive.
#[derive(Clone, Copy, Debug)]
pub struct TaskContext {
    pub ra: usize,
    pub sp: usize,
    pub s: [usize; 12],
}

impl TaskContext {
    /// A context with every register zero.
    pub fn zero_init() -> (r: TaskContext)
        ensures
            r.ra == 0,
            r.sp == 0,
            forall|i: int| 0 <= i < 12 ==> r.s@[i] == 0,
    {
        TaskContext { ra: 0, sp: 0, s: [0usize; 12] }
    }
}

/// Register frame saved on entry to the kernel from user mode.
#[derive(Clone, Copy, Debug)]
pub struct TrapContext {
    pub x: [usize; 32],
    pub sstatus: usize,
    pub sepc: usize,
}

impl TrapContext {
    /// A frame with every register zero.
    pub fn zero_init() -> (r: TrapContext)
        ensures
            r.sstatus == 0,
            r.sepc == 0,
            forall|i: int| 0 <= i < 32 ==> r.x@[i] == 0,
    {
        TrapContext { x: [0usize; 32], sstatus: 0, sepc: 0 }
    }
}

/// A task and the state that the scheduler and the processor act on.
pub struct Task {
    /// Stride-scheduling virtual time.
    pub pass: u64,
    /// CPU-share weight; never 0.
    pub priority: u64,
    pub task_status: TaskStatus,
    /// Time of the first dispatch, in milliseconds.
    pub start_time: Option<usize>,
    /// One counter per syscall id.
    pub syscall_times: [u32; MAX_SYSCALL_NUM],
    pub memory_set: MemorySet,
    pub task_cx: TaskContext,
    pub trap_cx: TrapContext,
}

impl Task {
    /// A task may be scheduled: its priority is positive.
    pub open spec fn wf(&self) -> bool {
        self.priority >= 1
    }

    /// A fresh, never dispatched task with the given weight and address-space
    /// root; `None` when `priority` is 0.
    pub fn new(priority: u64, token: usize) -> (r: Option<Task>)
        ensures
            priority == 0 <==> r is None,
            r matches Some(t) ==> {
                &&& t.wf()
                &&& t.pass == 0
                &&& t.priority == priority
                &&& t.task_status == TaskStatus::Ready
                &&& t.start_time is None
                &&& forall|i: int| 0 <= i < MAX_SYSCALL_NUM ==> t.syscall_times@[i] == 0
                &&& t.memory_set@ == Map::<usize, u8>::empty()
                &&& t.memory_set.spec_token() == token
            },
    {
        if priority == 0 {
            return None;
        }
        Some(
            Task {
                pass: 0,
                priority,
                task_status: TaskStatus::Ready,
                start_time: None,
                syscall_times: [0u32; MAX_SYSCALL_NUM],
                memory_set: MemorySet::new(token),
                task_cx: TaskContext::zero_init(),
                trap_cx: TrapContext::zero_init(),
            },
        )
    }

    /// Identifier of the page-table root of the task's address space.
    pub fn get_user_token(&self) -> (r: usize)
        ensures
            r == self.memory_set.spec_token(),
    {
        self.memory_set.token()
    }
}

} // verus!
