use os5_task::config::{BIG_STRIDE, MAX_SYSCALL_NUM, PAGE_SIZE};
use os5_task::manager::add_task;
use os5_task::processor::{
    count_syscall, current_run_time, current_syscall_times, current_task, current_task_status,
    current_trap_cx, current_user_token, run_next, take_current_task, task_mmap, task_munmap,
    Processor,
};
use os5_task::task::{Task, TaskStatus};
use os5_task::Kernel;

fn running_kernel(token: usize) -> Kernel {
    let mut k = Kernel::new();
    add_task(&mut k, Task::new(1, token).unwrap());
    assert!(run_next(&mut k, 100).unwrap().is_none());
    k
}

fn mapped(k: &Kernel, vpn: usize) -> Option<u8> {
    current_task(k).unwrap().memory_set.translate(vpn)
}

#[test]
fn new_processor_has_no_current_task() {
    let mut p = Processor::new();
    assert!(p.current().is_none());
    assert!(p.take_current().is_none());
}

#[test]
fn run_next_with_nothing_ready() {
    let mut k = Kernel::new();
    assert!(run_next(&mut k, 5).is_none());
    assert!(current_task(&k).is_none());
}

#[test]
fn dispatch_marks_running_and_records_start_time() {
    let k = running_kernel(0);
    let t = current_task(&k).unwrap();
    assert_eq!(t.task_status, TaskStatus::Running);
    assert_eq!(t.start_time, Some(100));
    assert_eq!(t.pass, BIG_STRIDE);
    assert_eq!(current_task_status(&k), TaskStatus::Running);
    assert_eq!(current_run_time(&k, 130), 30);
}

#[test]
fn start_time_kept_across_dispatches() {
    let mut k = running_kernel(0);
    let mut t = take_current_task(&mut k).unwrap();
    assert!(current_task(&k).is_none());
    t.task_status = TaskStatus::Ready;
    add_task(&mut k, t);
    assert!(run_next(&mut k, 900).unwrap().is_none());
    let t = current_task(&k).unwrap();
    assert_eq!(t.start_time, Some(100));
    assert_eq!(t.pass, 2 * BIG_STRIDE);
    assert_eq!(current_run_time(&k, 1000), 900);
}

#[test]
fn dispatch_hands_back_superseded_task() {
    let mut k = running_kernel(3);
    add_task(&mut k, Task::new(2, 4).unwrap());
    let prev = run_next(&mut k, 200).unwrap().unwrap();
    assert_eq!(prev.get_user_token(), 3);
    assert_eq!(current_user_token(&k), 4);
}

#[test]
fn user_token_of_current_task() {
    let k = running_kernel(0x8000_1234);
    assert_eq!(current_user_token(&k), 0x8000_1234);
}

#[test]
fn trap_frame_changes_stick() {
    let mut k = running_kernel(0);
    current_trap_cx(&mut k).sepc = 0x1000;
    current_trap_cx(&mut k).x[10] = 42;
    let t = current_task(&k).unwrap();
    assert_eq!(t.trap_cx.sepc, 0x1000);
    assert_eq!(t.trap_cx.x[10], 42);
}

#[test]
fn mmap_rejects_unaligned_start() {
    let mut k = running_kernel(0);
    assert_eq!(task_mmap(&mut k, PAGE_SIZE + 1, PAGE_SIZE, 3), -1);
    assert_eq!(mapped(&k, 1), None);
    assert_eq!(mapped(&k, 2), None);
}

#[test]
fn mmap_rejects_bad_port() {
    let mut k = running_kernel(0);
    assert_eq!(task_mmap(&mut k, 0, PAGE_SIZE, 0), -1);
    assert_eq!(task_mmap(&mut k, 0, PAGE_SIZE, 8), -1);
    assert_eq!(task_mmap(&mut k, 0, PAGE_SIZE, 9), -1);
    assert_eq!(mapped(&k, 0), None);
}

#[test]
fn mmap_maps_whole_pages_with_user_access() {
    let mut k = running_kernel(0);
    assert_eq!(task_mmap(&mut k, 2 * PAGE_SIZE, PAGE_SIZE + 1, 3), 0);
    assert_eq!(mapped(&k, 1), None);
    assert_eq!(mapped(&k, 2), Some(0b1_0110));
    assert_eq!(mapped(&k, 3), Some(0b1_0110));
    assert_eq!(mapped(&k, 4), None);
    assert_eq!(task_mmap(&mut k, 8 * PAGE_SIZE, PAGE_SIZE, 7), 0);
    assert_eq!(mapped(&k, 8), Some(0b1_1110));
}

#[test]
fn mmap_over_a_mapped_page_changes_nothing() {
    let mut k = running_kernel(0);
    assert_eq!(task_mmap(&mut k, 3 * PAGE_SIZE, PAGE_SIZE, 1), 0);
    assert_eq!(task_mmap(&mut k, 2 * PAGE_SIZE, 3 * PAGE_SIZE, 6), -1);
    assert_eq!(mapped(&k, 2), None);
    assert_eq!(mapped(&k, 3), Some(0b1_0010));
    assert_eq!(mapped(&k, 4), None);
}

#[test]
fn munmap_with_an_unmapped_page_changes_nothing() {
    let mut k = running_kernel(0);
    assert_eq!(task_mmap(&mut k, 0, 2 * PAGE_SIZE, 2), 0);
    assert_eq!(task_munmap(&mut k, 0, 3 * PAGE_SIZE), -1);
    assert_eq!(mapped(&k, 0), Some(0b1_0100));
    assert_eq!(mapped(&k, 1), Some(0b1_0100));
    assert_eq!(task_munmap(&mut k, 1, PAGE_SIZE), -1);
    assert_eq!(mapped(&k, 0), Some(0b1_0100));
}

#[test]
fn munmap_removes_the_range() {
    let mut k = running_kernel(0);
    assert_eq!(task_mmap(&mut k, 0, 3 * PAGE_SIZE, 1), 0);
    assert_eq!(task_munmap(&mut k, PAGE_SIZE, 2 * PAGE_SIZE), 0);
    assert_eq!(mapped(&k, 0), Some(0b1_0010));
    assert_eq!(mapped(&k, 1), None);
    assert_eq!(mapped(&k, 2), None);
    assert_eq!(task_munmap(&mut k, PAGE_SIZE, PAGE_SIZE), -1);
}

#[test]
fn count_syscall_counts_one_id() {
    let mut k = running_kernel(0);
    count_syscall(&mut k, 64);
    count_syscall(&mut k, 64);
    count_syscall(&mut k, 93);
    let times = current_syscall_times(&k);
    assert_eq!(times[64], 2);
    assert_eq!(times[93], 1);
    assert_eq!(times.iter().map(|c| *c as u64).sum::<u64>(), 3);
}

#[test]
fn count_syscall_ignores_ids_out_of_range() {
    let mut k = running_kernel(0);
    count_syscall(&mut k, MAX_SYSCALL_NUM);
    count_syscall(&mut k, usize::MAX);
    assert!(current_syscall_times(&k).iter().all(|c| *c == 0));
    count_syscall(&mut k, MAX_SYSCALL_NUM - 1);
    assert_eq!(current_syscall_times(&k)[MAX_SYSCALL_NUM - 1], 1);
}

#[test]
fn count_syscall_wraps() {
    let mut k = running_kernel(0);
    let mut t = take_current_task(&mut k).unwrap();
    t.syscall_times[5] = u32::MAX;
    add_task(&mut k, t);
    run_next(&mut k, 200);
    count_syscall(&mut k, 5);
    assert_eq!(current_syscall_times(&k)[5], 0);
}
