use xen_ctrl::foreign::{
    mapping_len, plan_foreign_map, plan_resource_map, release_after_failure, resource_flags_valid,
    ForeignMapPlan, MapError, PrivCmdMmapResource, ResourcePlan,
};
use xen_ctrl::page::{round_up, PAGE_SIZE};
use xen_ctrl::privcmd::{
    bounce_buffer_len, items_fit, PrivCmdHypercall, PrivcmdError, IOCTL_EVTCHN_BIND_INTERDOMAIN,
    IOCTL_EVTCHN_NOTIFY, IOCTL_PRIVCMD_DM_OP, IOCTL_PRIVCMD_HYPERCALL, IOCTL_PRIVCMD_IOEVENTFD,
    IOCTL_PRIVCMD_IRQFD, IOCTL_PRIVCMD_MMAPBATCH_V2, IOCTL_PRIVCMD_MMAP_RESOURCE,
    __HYPERVISOR_DOMCTL,
};
use xen_ctrl::retry::{find_not_ready_run, BatchOutcome, PageRun, PagedRetry, RetryStep};

const NOT_READY: i32 = -2;

#[test]
fn round_up_gives_whole_pages() {
    assert_eq!(round_up(0, 4096), 4096);
    assert_eq!(round_up(1, 4096), 4096);
    assert_eq!(round_up(4096, 4096), 4096);
    assert_eq!(round_up(4097, 4096), 8192);
    assert_eq!(round_up(10, 3), 12);
    assert_eq!(round_up(9, 3), 9);
}

#[test]
fn round_up_is_smallest_multiple_on_samples() {
    for value in 0u64..50 {
        for scale in 1u64..10 {
            let r = round_up(value, scale) as u64;
            assert_eq!(r % scale, 0);
            assert!(r >= value && r >= scale);
            assert!(r == scale || r - scale < value);
        }
    }
}

#[test]
fn bounce_buffer_is_rounded_to_pages() {
    assert_eq!(bounce_buffer_len(0), Some(4096));
    assert_eq!(bounce_buffer_len(48), Some(4096));
    assert_eq!(bounce_buffer_len(5000), Some(8192));
    assert_eq!(bounce_buffer_len(8192), Some(8192));
    assert_eq!(bounce_buffer_len(usize::MAX), None);
    assert_eq!(PAGE_SIZE, 4096);
}

#[test]
fn items_fit_in_bounce_buffer() {
    assert!(items_fit(2, 120, 4096));
    assert!(!items_fit(35, 120, 4096));
    assert!(!items_fit(usize::MAX, 120, 4096));
    assert!(items_fit(0, 0, 1));
}

#[test]
fn ioctl_numbers_match_kernel_headers() {
    assert_eq!(IOCTL_PRIVCMD_HYPERCALL(), 0x305000);
    assert_eq!(IOCTL_PRIVCMD_MMAPBATCH_V2(), 0x205004);
    assert_eq!(IOCTL_PRIVCMD_DM_OP(), 0x105005);
    assert_eq!(IOCTL_PRIVCMD_MMAP_RESOURCE(), 0x205007);
    assert_eq!(IOCTL_PRIVCMD_IRQFD(), 0x40185008);
    assert_eq!(IOCTL_PRIVCMD_IOEVENTFD(), 0x40305009);
    assert_eq!(IOCTL_EVTCHN_BIND_INTERDOMAIN(), 0x84501);
    assert_eq!(IOCTL_EVTCHN_NOTIFY(), 0x44504);
}

#[test]
fn envelope_carries_payload_address() {
    let h = PrivCmdHypercall::with_payload(__HYPERVISOR_DOMCTL, 0x7000);
    assert_eq!(h.op, 36);
    assert_eq!(h.arg, [0x7000, 0, 0, 0, 0]);
}

#[test]
fn permission_denied_is_abi_mismatch() {
    assert_eq!(PrivcmdError::from_errno(13), PrivcmdError::AbiMismatch);
    assert_eq!(PrivcmdError::from_errno(1), PrivcmdError::Os(1));
    assert_eq!(PrivcmdError::from_errno(2), PrivcmdError::Os(2));
}

#[test]
fn batch_outcome_from_errno() {
    assert_eq!(BatchOutcome::from_errno(None), BatchOutcome::Mapped);
    assert_eq!(BatchOutcome::from_errno(Some(2)), BatchOutcome::NotReady);
    assert_eq!(BatchOutcome::from_errno(Some(14)), BatchOutcome::Failed(14));
}

fn status_with_runs(pages: usize, runs: &[(usize, usize)]) -> Vec<i32> {
    let mut status = vec![0; pages];
    for &(s, e) in runs {
        for slot in status.iter_mut().take(e).skip(s) {
            *slot = NOT_READY;
        }
    }
    status
}

/// Drives the scan with a kernel that maps every retried batch; returns the
/// batches issued.
fn drive_all_mapped(status: &mut Vec<i32>) -> Vec<PageRun> {
    let mut scan = PagedRetry::new(status.len());
    let mut issued = Vec::new();
    while let Some(run) = scan.next_run(status) {
        issued.push(run);
        for slot in status.iter_mut().take(run.end).skip(run.start) {
            *slot = 0;
        }
        assert_eq!(scan.complete(run, BatchOutcome::Mapped), RetryStep::Continue);
        assert!(issued.len() <= status.len());
    }
    issued
}

#[test]
fn retry_issues_one_call_per_faulted_run() {
    let mut status = status_with_runs(12, &[(2, 5), (9, 10)]);
    let issued = drive_all_mapped(&mut status);
    assert_eq!(
        issued,
        vec![PageRun { start: 2, end: 5 }, PageRun { start: 9, end: 10 }]
    );
}

#[test]
fn retry_alternating_faults_stays_within_page_count() {
    let runs: Vec<(usize, usize)> = (0..6).map(|k| (2 * k, 2 * k + 1)).collect();
    let mut status = status_with_runs(12, &runs);
    let issued = drive_all_mapped(&mut status);
    assert_eq!(issued.len(), 6);
    assert!(issued.len() <= 12);
}

#[test]
fn retry_without_faults_issues_nothing() {
    let mut status = vec![0; 8];
    assert!(drive_all_mapped(&mut status).is_empty());
    let mut empty: Vec<i32> = Vec::new();
    assert!(drive_all_mapped(&mut empty).is_empty());
}

#[test]
fn retry_restarts_at_run_start_after_not_ready() {
    let mut status = status_with_runs(12, &[(2, 5), (9, 10)]);
    let mut scan = PagedRetry::new(12);
    let first = scan.next_run(&status).unwrap();
    assert_eq!(first, PageRun { start: 2, end: 5 });
    // The kernel mapped page 2 but pages 3 and 4 are still not ready.
    status[2] = 0;
    assert_eq!(scan.complete(first, BatchOutcome::NotReady), RetryStep::Backoff);
    assert_eq!(scan.cursor, 2);
    let again = scan.next_run(&status).unwrap();
    assert_eq!(again, PageRun { start: 3, end: 5 });
    assert_eq!(scan.complete(again, BatchOutcome::Failed(14)), RetryStep::Abort(14));
    assert_eq!(scan.cursor, 2);
}

#[test]
fn find_run_from_offset() {
    let status = status_with_runs(6, &[(0, 2), (4, 6)]);
    assert_eq!(find_not_ready_run(&status, 0), Some(PageRun { start: 0, end: 2 }));
    assert_eq!(find_not_ready_run(&status, 1), Some(PageRun { start: 1, end: 2 }));
    assert_eq!(find_not_ready_run(&status, 2), Some(PageRun { start: 4, end: 6 }));
    assert_eq!(find_not_ready_run(&status, 6), None);
    let other = vec![-14, 0, -1];
    assert_eq!(find_not_ready_run(&other, 0), None);
}

#[test]
fn foreign_map_plan_limits() {
    assert_eq!(mapping_len(3), Some(12288));
    assert_eq!(mapping_len(0), Some(0));
    assert_eq!(
        plan_foreign_map(4),
        Ok(ForeignMapPlan { num: 4, len: 16384 })
    );
    assert_eq!(plan_foreign_map(1u64 << 32), Err(MapError::TooLarge));
}

#[test]
fn resource_flags_are_restricted() {
    assert!(resource_flags_valid(1));
    assert!(resource_flags_valid(2));
    assert!(resource_flags_valid(3));
    assert!(resource_flags_valid(0));
    assert!(!resource_flags_valid(4));
    assert!(!resource_flags_valid(0x20));
    assert_eq!(plan_resource_map(4, 0, 0x20), Err(MapError::InvalidFlags));
}

#[test]
fn resource_plan_reserves_only_without_hint() {
    assert_eq!(
        plan_resource_map(4, 0, 2),
        Ok(ResourcePlan { reserve_len: Some(16384), reserve_flags: 3 })
    );
    assert_eq!(
        plan_resource_map(4, 0x1000_0000, 2),
        Ok(ResourcePlan { reserve_len: None, reserve_flags: 3 })
    );
    assert_eq!(
        plan_resource_map(0, 0, 1),
        Ok(ResourcePlan { reserve_len: None, reserve_flags: 1 })
    );
    let plan = plan_resource_map(4, 0, 1).unwrap();
    assert_eq!(release_after_failure(plan, 0x5000), Some((0x5000, 16384)));
    let hinted = plan_resource_map(4, 0x9000, 1).unwrap();
    assert_eq!(release_after_failure(hinted, 0x9000), None);
}

#[test]
fn resource_handle_takes_kernel_values() {
    let mut req = PrivCmdMmapResource::new(7, 1, 2, 0, 4, 0);
    req.addr = 0x4000_0000;
    let h = req.into_handle(3, 1);
    assert_eq!(h.domid, 7);
    assert_eq!(h.addr, 0x4000_0000);
    assert_eq!(h.nr_frames, 4);
    assert_eq!(h.unmap_len(), Some(16384));
}
