//! The processor: the running task's slot, the dispatch step, and the
//! requests that a syscall makes on behalf of the running task.
use vstd::prelude::*;

use crate::config::{MAX_SYSCALL_NUM, PAGE_SIZE, PERM_USER};
use crate::manager::{charged, first_min_index};
use crate::mm::{page_ceil, page_floor, pages_mapped, pages_unmapped, range_free, range_full};
use crate::task::{Task, TaskContext, TaskStatus, TrapContext};
use crate::Kernel;

verus! {

/// `t` as the dispatch step leaves it: running, and with its first-dispatch
/// time recorded if it had none.
pub open spec fn dispatched(t: Task, now: usize) -> Task {
    Task {
        task_status: TaskStatus::Running,
        start_time: if t.start_time is Some {
            t.start_time
        } else {
            Some(now)
        },
        ..t
    }
}

/// `a` and `b` differ at most in their address spaces' pages.
pub open spec fn same_but_pages(a: Task, b: Task) -> bool {
    &&& a.pass == b.pass
    &&& a.priority == b.priority
    &&& a.task_status == b.task_status
    &&& a.start_time == b.start_time
    &&& a.syscall_times == b.syscall_times
    &&& a.task_cx == b.task_cx
    &&& a.trap_cx == b.trap_cx
    &&& a.memory_set.spec_token() == b.memory_set.spec_token()
}

/// `a` and `b` differ at most in their syscall counters.
pub open spec fn same_but_counters(a: Task, b: Task) -> bool {
    &&& a.pass == b.pass
    &&& a.priority == b.priority
    &&& a.task_status == b.task_status
    &&& a.start_time == b.start_time
    &&& a.memory_set == b.memory_set
    &&& a.task_cx == b.task_cx
    &&& a.trap_cx == b.trap_cx
}

/// A permission request uses only the read, write and execute bits, and at
/// least one of them.
pub open spec fn valid_port(port: usize) -> bool {
    1 <= port <= 7
}

/// Page permission bits for a valid request: read, write and execute moved
/// up one bit, and user access always granted.
pub open spec fn port_perm(port: usize) -> u8 {
    (port * 2 + PERM_USER) as u8
}

/// Whether `mmap(start, len, port)` succeeds on an address space with
/// pages `m`.
pub open spec fn mmap_ok(m: Map<usize, u8>, start: usize, len: usize, port: usize) -> bool {
    &&& start % PAGE_SIZE == 0
    &&& valid_port(port)
    &&& range_free(m, page_floor(start as int), page_ceil(start + len))
}

/// Whether `munmap(start, len)` succeeds on an address space with pages `m`.
pub open spec fn munmap_ok(m: Map<usize, u8>, start: usize, len: usize) -> bool {
    &&& start % PAGE_SIZE == 0
    &&& range_full(m, page_floor(start as int), page_ceil(start + len))
}

/// A task keeps the first-dispatch time it was given: later charges and
/// dispatches leave it as it is.
pub proof fn lemma_start_time_set_once(t: Task, first: usize, later: usize)
    requires
        t.start_time is None,
    ensures
        dispatched(t, first).start_time == Some(first),
        dispatched(charged(dispatched(t, first)), later).start_time == Some(first),
{
}

/// Address `a` rounded down to its page number.
fn floor_vpn(a: usize) -> (r: usize)
    ensures
        r == page_floor(a as int),
{
    a / PAGE_SIZE
}

/// Address `a` rounded up to a page number.
fn ceil_vpn(a: usize) -> (r: usize)
    ensures
        r == page_ceil(a as int),
{
    if a == 0 {
        0
    } else {
        (a - 1) / PAGE_SIZE + 1
    }
}

/// The task running on this processor, and the scheduler's own saved
/// context.
pub struct Processor {
    pub current: Option<Task>,
    pub idle_task_cx: TaskContext,
}

impl Processor {
    pub open spec fn wf(&self) -> bool {
        self.current matches Some(t) ==> t.wf()
    }

    /// The current task; only meaningful when there is one.
    pub open spec fn cur(&self) -> Task
        recommends
            self.current is Some,
    {
        self.current->Some_0
    }

    /// A processor with no current task.
    pub fn new() -> (r: Processor)
        ensures
            r.current is None,
            r.wf(),
    {
        Processor { current: None, idle_task_cx: TaskContext::zero_init() }
    }

    /// The scheduler's saved context, for the context switch.
    pub fn get_idle_task_cx(&mut self) -> (r: &mut TaskContext)
        ensures
            *r == old(self).idle_task_cx,
            final(self).current == old(self).current,
            final(self).idle_task_cx == *final(r),
    {
        &mut self.idle_task_cx
    }

    /// Clears the current slot and returns what it held.
    pub fn take_current(&mut self) -> (r: Option<Task>)
        ensures
            r == old(self).current,
            final(self).current is None,
            final(self).idle_task_cx == old(self).idle_task_cx,
    {
        self.current.take()
    }

    /// The current task, left in its slot.
    pub fn current(&self) -> (r: Option<&Task>)
        ensures
            r is Some <==> self.current is Some,
            r matches Some(t) ==> *t == self.cur(),
    {
        match &self.current {
            Some(t) => Some(t),
            None => None,
        }
    }

    /// Makes `task` the running task: marks it running, records `now` as its
    /// start time if it never ran, and installs it in the current slot.
    /// Returns the task it supersedes there, if any.
    pub fn dispatch(&mut self, task: Task, now: usize) -> (prev: Option<Task>)
        requires
            old(self).wf(),
            task.wf(),
        ensures
            prev == old(self).current,
            final(self).current == Some(dispatched(task, now)),
            final(self).idle_task_cx == old(self).idle_task_cx,
            final(self).wf(),
    {
        let mut task = task;
        if task.start_time.is_none() {
            task.start_time = Some(now);
        }
        task.task_status = TaskStatus::Running;
        let prev = self.current.take();
        self.current = Some(task);
        prev
    }

    /// Maps `[start, start + len)` into the current task's address space
    /// with the permissions of `port`. Returns 0 on success and -1, with
    /// nothing changed, when `start` is not page-aligned, `port` is not a
    /// valid request, or a page of the range is already mapped.
    pub fn task_mmap(&mut self, start: usize, len: usize, port: usize) -> (r: isize)
        requires
            old(self).wf(),
            old(self).current is Some,
            start + len <= usize::MAX,
        ensures
            final(self).wf(),
            final(self).idle_task_cx == old(self).idle_task_cx,
            final(self).current is Some,
            r == (if mmap_ok(old(self).cur().memory_set@, start, len, port) { 0isize } else { -1isize }),
            r == -1 ==> *final(self) == *old(self),
            r == 0 ==> {
                &&& same_but_pages(final(self).cur(), old(self).cur())
                &&& final(self).cur().memory_set@ == pages_mapped(
                    old(self).cur().memory_set@,
                    page_floor(start as int),
                    page_ceil(start + len),
                    port_perm(port),
                )
            },
    {
        if start % PAGE_SIZE != 0 || port > 7 || port == 0 {
            return -1;
        }
        let start_vpn = floor_vpn(start);
        let end_vpn = ceil_vpn(start + len);
        let free = match &self.current {
            Some(t) => t.memory_set.is_range_free(start_vpn, end_vpn),
            None => false,
        };
        if !free {
            return -1;
        }
        let perm: u8 = (port as u8) * 2 + PERM_USER;
        match self.current.take() {
            Some(mut task) => {
                task.memory_set.insert_framed_area(start_vpn, end_vpn, perm);
                self.current = Some(task);
                0
            },
            None => -1,
        }
    }

    /// Unmaps `[start, start + len)` from the current task's address space.
    /// Returns 0 on success and -1, with nothing changed, when `start` is not
    /// page-aligned or a page of the range is not mapped.
    pub fn task_munmap(&mut self, start: usize, len: usize) -> (r: isize)
        requires
            old(self).wf(),
            old(self).current is Some,
            start + len <= usize::MAX,
        ensures
            final(self).wf(),
            final(self).idle_task_cx == old(self).idle_task_cx,
            final(self).current is Some,
            r == (if munmap_ok(old(self).cur().memory_set@, start, len) { 0isize } else { -1isize }),
            r == -1 ==> *final(self) == *old(self),
            r == 0 ==> {
                &&& same_but_pages(final(self).cur(), old(self).cur())
                &&& final(self).cur().memory_set@ == pages_unmapped(
                    old(self).cur().memory_set@,
                    page_floor(start as int),
                    page_ceil(start + len),
                )
            },
    {
        if start % PAGE_SIZE != 0 {
            return -1;
        }
        let start_vpn = floor_vpn(start);
        let end_vpn = ceil_vpn(start + len);
        let full = match &self.current {
            Some(t) => t.memory_set.is_range_full(start_vpn, end_vpn),
            None => false,
        };
        if !full {
            return -1;
        }
        match self.current.take() {
            Some(mut task) => {
                task.memory_set.unmap(start_vpn, end_vpn);
                self.current = Some(task);
                0
            },
            None => -1,
        }
    }

    /// Adds one, wrapping, to the current task's counter for `syscall_id`;
    /// ids at or above the table's bound are ignored.
    pub fn count_syscall(&mut self, syscall_id: usize)
        requires
            old(self).wf(),
            old(self).current is Some,
        ensures
            final(self).wf(),
            syscall_id >= MAX_SYSCALL_NUM ==> *final(self) == *old(self),
            syscall_id < MAX_SYSCALL_NUM ==> {
                let old_n = old(self).cur().syscall_times@[syscall_id as int];
                &&& final(self).idle_task_cx == old(self).idle_task_cx
                &&& final(self).current is Some
                &&& same_but_counters(final(self).cur(), old(self).cur())
                &&& final(self).cur().syscall_times@ == old(self).cur().syscall_times@.update(
                    syscall_id as int,
                    (if old_n == u32::MAX { 0 } else { old_n + 1 }) as u32,
                )
            },
    {
        if syscall_id < MAX_SYSCALL_NUM {
            match self.current.take() {
                Some(mut task) => {
                    let n = task.syscall_times[syscall_id];
                    task.syscall_times[syscall_id] = n.wrapping_add(1);
                    self.current = Some(task);
                },
                None => {},
            }
        }
    }

    /// Status of the current task.
    pub fn current_task_status(&self) -> (r: TaskStatus)
        requires
            self.current is Some,
        ensures
            r == self.cur().task_status,
    {
        match &self.current {
            Some(t) => t.task_status,
            None => TaskStatus::Ready,
        }
    }

    /// A copy of the current task's syscall counters.
    pub fn current_syscall_times(&self) -> (r: [u32; MAX_SYSCALL_NUM])
        requires
            self.current is Some,
        ensures
            r == self.cur().syscall_times,
    {
        match &self.current {
            Some(t) => t.syscall_times,
            None => [0u32; MAX_SYSCALL_NUM],
        }
    }

    /// Milliseconds from the current task's first dispatch to `now`.
    pub fn current_run_time(&self, now: usize) -> (r: usize)
        requires
            self.current is Some,
            self.cur().start_time is Some,
            self.cur().start_time->Some_0 <= now,
        ensures
            r == now - self.cur().start_time->Some_0,
    {
        match &self.current {
            Some(t) => match t.start_time {
                Some(s) => now - s,
                None => 0,
            },
            None => 0,
        }
    }
}

/// One turn of the dispatch loop: takes the next task from the scheduler and
/// makes it the running task, at time `now`. `None` when no task is ready;
/// otherwise `Some` of the task it superseded in the current slot, if any.
pub fn run_next(kernel: &mut Kernel, now: usize) -> (r: Option<Option<Task>>)
    requires
        old(kernel).wf(),
    ensures
        final(kernel).wf(),
        final(kernel).processor.idle_task_cx == old(kernel).processor.idle_task_cx,
        r is None <==> old(kernel).manager@.len() == 0,
        r is None ==> final(kernel).manager@ == old(kernel).manager@ && final(kernel).processor
            == old(kernel).processor,
        r matches Some(prev) ==> {
            let i = first_min_index(old(kernel).manager@);
            &&& prev == old(kernel).processor.current
            &&& final(kernel).manager@ == old(kernel).manager@.remove(i)
            &&& final(kernel).processor.current == Some(
                dispatched(charged(old(kernel).manager@[i]), now),
            )
        },
{
    match kernel.manager.fetch() {
        Some(task) => Some(kernel.processor.dispatch(task, now)),
        None => None,
    }
}

/// Clears the current slot and returns what it held.
pub fn take_current_task(kernel: &mut Kernel) -> (r: Option<Task>)
    requires
        old(kernel).wf(),
    ensures
        final(kernel).wf(),
        r == old(kernel).processor.current,
        final(kernel).processor.current is None,
        final(kernel).processor.idle_task_cx == old(kernel).processor.idle_task_cx,
        final(kernel).manager == old(kernel).manager,
{
    kernel.processor.take_current()
}

/// The current task, left in its slot.
pub fn current_task(kernel: &Kernel) -> (r: Option<&Task>)
    ensures
        r is Some <==> kernel.processor.current is Some,
        r matches Some(t) ==> *t == kernel.processor.cur(),
{
    kernel.processor.current()
}

/// Page-table root of the current task's address space.
pub fn current_user_token(kernel: &Kernel) -> (r: usize)
    requires
        kernel.processor.current is Some,
    ensures
        r == kernel.processor.cur().memory_set.spec_token(),
{
    match kernel.processor.current() {
        Some(t) => t.get_user_token(),
        None => 0,
    }
}

/// The current task's saved trap frame, for the trap layer to read and
/// change.
pub fn current_trap_cx(kernel: &mut Kernel) -> (r: &mut TrapContext)
    requires
        old(kernel).processor.current is Some,
    ensures
        *r == old(kernel).processor.cur().trap_cx,
        final(kernel).manager == old(kernel).manager,
        final(kernel).processor.idle_task_cx == old(kernel).processor.idle_task_cx,
        final(kernel).processor.current == Some(
            Task { trap_cx: *final(r), ..old(kernel).processor.cur() },
        ),
{
    let t = kernel.processor.current.as_mut().unwrap();
    &mut t.trap_cx
}

/// Maps `[start, start + len)` into the current task's address space; see
/// [`Processor::task_mmap`].
pub fn task_mmap(kernel: &mut Kernel, start: usize, len: usize, port: usize) -> (r: isize)
    requires
        old(kernel).wf(),
        old(kernel).processor.current is Some,
        start + len <= usize::MAX,
    ensures
        final(kernel).wf(),
        final(kernel).manager == old(kernel).manager,
        final(kernel).processor.idle_task_cx == old(kernel).processor.idle_task_cx,
        final(kernel).processor.current is Some,
        r == (if mmap_ok(old(kernel).processor.cur().memory_set@, start, len, port) {
            0isize
        } else {
            -1isize
        }),
        r == -1 ==> final(kernel).processor == old(kernel).processor,
        r == 0 ==> {
            &&& same_but_pages(final(kernel).processor.cur(), old(kernel).processor.cur())
            &&& final(kernel).processor.cur().memory_set@ == pages_mapped(
                old(kernel).processor.cur().memory_set@,
                page_floor(start as int),
                page_ceil(start + len),
                port_perm(port),
            )
        },
{
    kernel.processor.task_mmap(start, len, port)
}

/// Unmaps `[start, start + len)` from the current task's address space; see
/// [`Processor::task_munmap`].
pub fn task_munmap(kernel: &mut Kernel, start: usize, len: usize) -> (r: isize)
    requires
        old(kernel).wf(),
        old(kernel).processor.current is Some,
        start + len <= usize::MAX,
    ensures
        final(kernel).wf(),
        final(kernel).manager == old(kernel).manager,
        final(kernel).processor.idle_task_cx == old(kernel).processor.idle_task_cx,
        final(kernel).processor.current is Some,
        r == (if munmap_ok(old(kernel).processor.cur().memory_set@, start, len) {
            0isize
        } else {
            -1isize
        }),
        r == -1 ==> final(kernel).processor == old(kernel).processor,
        r == 0 ==> {
            &&& same_but_pages(final(kernel).processor.cur(), old(kernel).processor.cur())
            &&& final(kernel).processor.cur().memory_set@ == pages_unmapped(
                old(kernel).processor.cur().memory_set@,
                page_floor(start as int),
                page_ceil(start + len),
            )
        },
{
    kernel.processor.task_munmap(start, len)
}

/// Counts one call of `syscall_id` for the current task; see
/// [`Processor::count_syscall`].
pub fn count_syscall(kernel: &mut Kernel, syscall_id: usize)
    requires
        old(kernel).wf(),
        old(kernel).processor.current is Some,
    ensures
        final(kernel).wf(),
        final(kernel).manager == old(kernel).manager,
        syscall_id >= MAX_SYSCALL_NUM ==> final(kernel).processor == old(kernel).processor,
        syscall_id < MAX_SYSCALL_NUM ==> {
            let old_n = old(kernel).processor.cur().syscall_times@[syscall_id as int];
            &&& final(kernel).processor.idle_task_cx == old(kernel).processor.idle_task_cx
            &&& final(kernel).processor.current is Some
            &&& same_but_counters(final(kernel).processor.cur(), old(kernel).processor.cur())
            &&& final(kernel).processor.cur().syscall_times@
                == old(kernel).processor.cur().syscall_times@.update(
                syscall_id as int,
                (if old_n == u32::MAX { 0 } else { old_n + 1 }) as u32,
            )
        },
{
    kernel.processor.count_syscall(syscall_id);
}

/// Status of the current task.
pub fn current_task_status(kernel: &Kernel) -> (r: TaskStatus)
    requires
        kernel.processor.current is Some,
    ensures
        r == kernel.processor.cur().task_status,
{
    kernel.processor.current_task_status()
}

/// A copy of the current task's syscall counters.
pub fn current_syscall_times(kernel: &Kernel) -> (r: [u32; MAX_SYSCALL_NUM])
    requires
        kernel.processor.current is Some,
    ensures
        r == kernel.processor.cur().syscall_times,
{
    kernel.processor.current_syscall_times()
}

/// Milliseconds from the current task's first dispatch to `now`.
pub fn current_run_time(kernel: &Kernel, now: usize) -> (r: usize)
    requires
        kernel.processor.current is Some,
        kernel.processor.cur().start_time is Some,
        kernel.processor.cur().start_time->Some_0 <= now,
    ensures
        r == now - kernel.processor.cur().start_time->Some_0,
{
    kernel.processor.current_run_time(now)
}

} // verus!
