//! Happy/sad contracts of the platform's public decisions.

use valence_platform::deletion::boson_setup::VALENCE_DELETION_STEP_WORKER_TASK;
use valence_platform::deletion::debug::{
    authorize_deletion_debug_request, valence_debug_deletions_enabled, DebugDenial,
};
use valence_platform::deletion::dispatch::{
    force_deletion_chronon_unregistered_for_tests, is_deletion_chronon_registered,
    register_deletion_dispatch, run_deletion_orchestrator_now_for_registered_backend,
};
use valence_platform::deletion::run_service::{DeletionService, RunFields, WaitStep};
use valence_platform::deletion::sweep::{count_reenqueued, reenqueue_swept_queued_runs};
use valence_platform::iter::boson_setup::VALENCE_ITER_ROW_WORKER_TASK;
use valence_platform::iter::dispatch::{
    force_iter_chronon_unregistered_for_tests, is_iter_chronon_registered,
    register_iter_dispatch, run_iter_orchestrator_now_for_registered_backend,
};
use valence_platform::iter::paging::{keyset_page, page_request_admits};
use valence_platform::iter::run_service::{IterRunOptions, IterService};
use valence_platform::model::{Actor, PlatformError};
use valence_platform::registration::ChrononSlot;

fn system() -> Actor {
    Actor::System { operation: "valence_platform_contract".to_string() }
}

fn run_with_status(status: &str) -> Option<RunFields> {
    Some(RunFields {
        status: Some(status.to_string()),
        root_table: Some("widget".to_string()),
        root_record_id: Some("w1".to_string()),
        completed_steps: None,
        failed_steps: None,
    })
}

#[test]
fn task_name_constants_happy() {
    assert_eq!(VALENCE_ITER_ROW_WORKER_TASK, "valence_iter_row_worker");
    assert_eq!(
        VALENCE_DELETION_STEP_WORKER_TASK,
        "valence_deletion_step_worker"
    );
}

#[test]
fn valence_debug_deletions_enabled_happy_and_sad() {
    assert!(
        !valence_debug_deletions_enabled(None),
        "unset env must disable debug routes"
    );
    assert!(
        !valence_debug_deletions_enabled(Some("0")),
        "non-1 value is sad/disabled"
    );
    assert!(
        valence_debug_deletions_enabled(Some("1")),
        "VALENCE_DEBUG_DELETIONS=1 is happy/enabled"
    );
    assert!(valence_debug_deletions_enabled(Some(" 1\n")));
}

#[test]
fn deletion_debug_admin_token_gate_happy_and_sad() {
    let err = authorize_deletion_debug_request(None, None, None).expect_err("disabled must 404");
    assert_eq!(err, DebugDenial::NotEnabled);
    assert_eq!(err.status_code(), 404);

    let err = authorize_deletion_debug_request(Some("1"), None, None)
        .expect_err("enabled without token env");
    assert_eq!(err.status_code(), 401);
    assert_eq!(err, DebugDenial::TokenUnconfigured);

    let err = authorize_deletion_debug_request(Some("1"), Some("test-secret"), None)
        .expect_err("missing header");
    assert_eq!(err.status_code(), 401);

    let err = authorize_deletion_debug_request(Some("1"), Some("test-secret"), Some("wrong"))
        .expect_err("token mismatch");
    assert_eq!(err.status_code(), 401);
    assert_eq!(err, DebugDenial::TokenRejected);

    authorize_deletion_debug_request(Some("1"), Some("test-secret"), Some("test-secret"))
        .expect("matching token is happy");
    authorize_deletion_debug_request(Some("1"), Some("  test-secret "), Some("test-secret"))
        .expect("the configured token is trimmed");
    let err = authorize_deletion_debug_request(Some("1"), Some("   "), Some(""))
        .expect_err("a blank token counts as unconfigured");
    assert_eq!(err, DebugDenial::TokenUnconfigured);
}

#[test]
fn paging_rejects_unsafe_table_name_sad() {
    let err = page_request_admits("evil;drop", 10).expect_err("unsafe table must fail");
    assert!(err.contains("unsafe table name"), "unexpected error: {err}");
    let err = page_request_admits("x-y", 10).expect_err("hyphenated table must fail");
    assert!(err.contains("unsafe table name"), "unexpected error: {err}");
    assert_eq!(page_request_admits("contract_tbl_9", 5), Ok(true));
    assert_eq!(page_request_admits("contract_tbl_9", 0), Ok(false));
}

#[test]
fn paging_page_empty_table_happy() {
    let ids = keyset_page(&Vec::new(), None, 5);
    assert!(ids.is_empty());
}

#[test]
fn iter_service_start_empty_names_sad() {
    let err = IterService::create_run(&system(), "", "t", IterRunOptions::default())
        .expect_err("empty iter_name");
    assert!(matches!(err, PlatformError::Validation(_)));
    let err = IterService::create_run(&system(), "I", "", IterRunOptions::default())
        .expect_err("empty target_table");
    assert!(matches!(err, PlatformError::Validation(_)));
}

#[test]
fn run_deletion_orchestrator_now_unregistered_sad() {
    let mut slot: ChrononSlot<&str> = ChrononSlot::new();
    assert!(register_deletion_dispatch(&mut slot, "chronon"));
    force_deletion_chronon_unregistered_for_tests(&mut slot, true);
    let err = run_deletion_orchestrator_now_for_registered_backend(&slot, "any-run")
        .err()
        .expect("must require register_deletion_dispatch");
    match err {
        PlatformError::Internal(msg) => {
            assert!(
                msg.contains("not registered") || msg.contains("register_deletion_dispatch"),
                "unexpected Internal: {msg}"
            );
        }
        other => panic!("expected Internal, got {other:?}"),
    }
    force_deletion_chronon_unregistered_for_tests(&mut slot, false);
    let req = run_deletion_orchestrator_now_for_registered_backend(&slot, "any-run")
        .ok()
        .expect("registered");
    assert_eq!(*req.backend, "chronon");
    assert_eq!(req.job_name, "valence-deletion-orchestrator");
    assert_eq!(req.run_id, "any-run");
}

#[test]
fn run_iter_orchestrator_now_unregistered_sad() {
    let mut slot: ChrononSlot<&str> = ChrononSlot::new();
    force_iter_chronon_unregistered_for_tests(&mut slot, true);
    let err = run_iter_orchestrator_now_for_registered_backend(&slot, "any-run")
        .err()
        .expect("must require register_iter_dispatch");
    match err {
        PlatformError::Internal(msg) => {
            assert!(
                msg.contains("not registered") || msg.contains("register_iter_dispatch"),
                "unexpected Internal: {msg}"
            );
        }
        other => panic!("expected Internal, got {other:?}"),
    }
    force_iter_chronon_unregistered_for_tests(&mut slot, false);
}

#[test]
fn iter_service_start_unregistered_sad() {
    let mut slot: ChrononSlot<&str> = ChrononSlot::new();
    force_iter_chronon_unregistered_for_tests(&mut slot, true);
    assert!(!is_iter_chronon_registered(&slot));
    let created = IterService::create_run(&system(), "AnyIter", "any_table", IterRunOptions::default())
        .expect("valid run");
    let err = run_iter_orchestrator_now_for_registered_backend(&slot, &created.run_id)
        .err()
        .expect("start requires register_iter_dispatch");
    assert!(matches!(err, PlatformError::Internal(m) if m.contains("register_iter_dispatch")));
}

#[test]
fn registration_first_wins() {
    let mut slot: ChrononSlot<&str> = ChrononSlot::new();
    assert!(!is_iter_chronon_registered(&slot));
    assert!(register_iter_dispatch(&mut slot, "first"));
    assert!(!register_iter_dispatch(&mut slot, "second"));
    assert!(is_iter_chronon_registered(&slot));
    let req = run_iter_orchestrator_now_for_registered_backend(&slot, "r")
        .ok()
        .expect("registered");
    assert_eq!(*req.backend, "first");
    assert_eq!(req.job_name, "valence-iter-orchestrator");
}

#[test]
fn reenqueue_swept_returns_zero_when_chronon_unregistered_happy() {
    let mut slot: ChrononSlot<&str> = ChrononSlot::new();
    force_deletion_chronon_unregistered_for_tests(&mut slot, true);
    assert!(
        !is_deletion_chronon_registered(&slot),
        "force seam must report unregistered"
    );
    let rows = vec![Some("valence_deletion_run:abc".to_string())];
    let plan = reenqueue_swept_queued_runs(is_deletion_chronon_registered(&slot), &rows);
    assert!(plan.is_none());
    force_deletion_chronon_unregistered_for_tests(&mut slot, false);
}

#[test]
fn reenqueue_strips_prefix_and_counts_successes() {
    let rows = vec![
        Some("valence_deletion_run:abc".to_string()),
        None,
        Some("def".to_string()),
    ];
    let ids = reenqueue_swept_queued_runs(true, &rows).expect("registered");
    assert_eq!(ids, vec!["abc".to_string(), "def".to_string()]);
    let results = vec![Ok(()), Err(PlatformError::Internal("x".into())), Ok(())];
    assert_eq!(count_reenqueued(&results), 2);
}

#[test]
fn deletion_service_get_missing_run_returns_none_sad() {
    assert!(DeletionService::latest_run_id_for_record(None).is_none());
    assert_eq!(
        DeletionService::latest_run_id_for_record(Some("valence_deletion_run:xyz")),
        Some("xyz".to_string())
    );
}

#[test]
fn deletion_service_wait_terminal_failed_sad() {
    let step = DeletionService::wait_step("fail-me", false, &run_with_status("failed"));
    match step {
        WaitStep::Fail(PlatformError::Database(msg)) => {
            assert!(msg.contains("failed") && msg.contains("fail-me"), "unexpected: {msg}");
        }
        other => panic!("failed status must error, got {other:?}"),
    }
}

#[test]
fn deletion_service_wait_terminal_timeout_sad() {
    let step = DeletionService::wait_step("stuck", true, &run_with_status("queued"));
    match step {
        WaitStep::Fail(PlatformError::Internal(msg)) => {
            assert!(msg.contains("terminal status") && msg.contains("stuck"), "unexpected: {msg}");
        }
        other => panic!("queued run must time out, got {other:?}"),
    }
    assert!(matches!(
        DeletionService::wait_step("stuck", false, &run_with_status("queued")),
        WaitStep::Poll
    ));
}

#[test]
fn deletion_service_wait_terminal_completed_happy() {
    assert!(matches!(
        DeletionService::wait_step("done", false, &run_with_status("completed")),
        WaitStep::Settled
    ));
    assert!(matches!(
        DeletionService::wait_step("c", false, &run_with_status("cancelled")),
        WaitStep::Settled
    ));
    assert!(matches!(DeletionService::wait_step("gone", false, &None), WaitStep::Settled));
}
