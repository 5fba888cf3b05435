//! Budgeted TTL sweep decisions, driven with hand-made listing and queueing results.

use valence_platform::model::{IdCell, PlatformError};
use valence_platform::ttl::sweep::{
    bare_record_id, error_class, expired_ids_from_rows, is_ttl_service_registered,
    mark_registered_for_inline, register_ttl_service, sweep_expired_ttl_rows,
    unregistered_sweep_report, BackendTtlCapability, TtlRegistration, TtlSweep, TtlSweepAction,
    TtlSweepReport,
};

/// Drive a sweep where table `t` has `expired[t]` expired rows and every queue succeeds.
fn drive(cap: u32, tables: &[&str], expired: &[usize]) -> (TtlSweepReport, Vec<(String, u32)>) {
    let mut sweep = TtlSweep::new(cap, tables.iter().map(|t| t.to_string()).collect(), 0);
    let mut listed = Vec::new();
    let mut run = 0;
    loop {
        match sweep.next_action() {
            TtlSweepAction::ListExpired { table, limit } => {
                let idx = tables.iter().position(|t| *t == table).unwrap();
                listed.push((table.clone(), limit));
                let n = expired[idx].min(limit as usize);
                let ids = (0..n).map(|i| format!("{table}{i}")).collect();
                sweep.on_list_result(Ok(ids));
            }
            TtlSweepAction::QueueDelete { .. } => {
                run += 1;
                sweep.on_queue_result(Ok(Some(format!("run-{run}"))));
            }
            TtlSweepAction::Finished => break,
        }
    }
    (sweep.report(), listed)
}

#[test]
fn tm14_budget_of_two_drains_across_ticks() {
    // Three expired rows in one table, cap 2: the first tick queues two and exhausts the
    // budget; the second tick (one row left) queues the last one.
    let (first, _) = drive(2, &["tm14"], &[3]);
    assert_eq!(first.queued_deletes, 2);
    assert!(first.budget_exhausted);
    assert_eq!(first.run_ids.len(), 2);
    let (second, _) = drive(2, &["tm14"], &[1]);
    assert_eq!(second.queued_deletes, 1);
    assert!(!second.budget_exhausted);
}

#[test]
fn fair_share_across_three_tables() {
    let (report, listed) = drive(32, &["a", "b", "c"], &[100, 100, 100]);
    assert_eq!(
        listed,
        vec![("a".to_string(), 11), ("b".to_string(), 11), ("c".to_string(), 10)]
    );
    assert_eq!(report.queued_deletes, 32);
    assert!(report.budget_exhausted);
    assert_eq!(report.tables_considered, 3);
}

#[test]
fn unused_share_flows_to_later_tables() {
    let (report, listed) = drive(32, &["a", "b", "c"], &[0, 5, 100]);
    assert_eq!(
        listed,
        vec![("a".to_string(), 11), ("b".to_string(), 16), ("c".to_string(), 27)]
    );
    assert_eq!(report.queued_deletes, 32);
}

#[test]
fn pending_rows_and_errors_do_not_consume_budget() {
    let mut sweep = TtlSweep::new(2, vec!["t".to_string()], 1);
    assert_eq!(
        sweep.next_action(),
        TtlSweepAction::ListExpired { table: "t".to_string(), limit: 2 }
    );
    sweep.on_list_result(Ok(vec!["x".into(), "y".into(), "z".into()]));
    sweep.on_queue_result(Ok(None));
    sweep.on_queue_result(Err(PlatformError::Privacy("no".into())));
    assert_eq!(
        sweep.next_action(),
        TtlSweepAction::QueueDelete { table: "t".to_string(), id: "z".to_string() }
    );
    sweep.on_queue_result(Ok(Some("r1".into())));
    assert_eq!(sweep.next_action(), TtlSweepAction::Finished);
    let report = sweep.report();
    assert_eq!(report.queued_deletes, 1);
    assert_eq!(report.run_ids, vec!["r1".to_string()]);
    assert_eq!(report.skipped_native, 1);
    assert!(!report.budget_exhausted);
}

#[test]
fn listing_error_skips_the_table() {
    let mut sweep = TtlSweep::new(4, vec!["bad".to_string(), "good".to_string()], 0);
    sweep.on_list_result(Err(PlatformError::Database("down".into())));
    assert_eq!(
        sweep.next_action(),
        TtlSweepAction::ListExpired { table: "good".to_string(), limit: 4 }
    );
}

#[test]
fn zero_cap_finishes_without_listing() {
    let sweep = TtlSweep::new(0, vec!["a".to_string()], 0);
    assert_eq!(sweep.next_action(), TtlSweepAction::Finished);
    let report = sweep.report();
    assert!(!report.budget_exhausted);
    assert_eq!(report.queued_deletes, 0);
}

#[test]
fn unregistered_tick_is_empty_and_registration_turns_sweeping_on() {
    let mut reg: TtlRegistration<&str> = TtlRegistration::new();
    assert!(!is_ttl_service_registered(&reg));
    let tables = vec![("a".to_string(), BackendTtlCapability::Deferred)];
    assert!(sweep_expired_ttl_rows(&reg, 32, &tables).is_none());
    assert_eq!(unregistered_sweep_report(), TtlSweepReport::default());
    assert!(register_ttl_service(&mut reg, "chronon-1"));
    assert!(!register_ttl_service(&mut reg, "chronon-2"));
    assert!(is_ttl_service_registered(&reg));
    let sweep = sweep_expired_ttl_rows(&reg, 32, &tables).expect("registered");
    assert_eq!(
        sweep.next_action(),
        TtlSweepAction::ListExpired { table: "a".to_string(), limit: 32 }
    );
    let mut inline: TtlRegistration<&str> = TtlRegistration::new();
    mark_registered_for_inline(&mut inline);
    assert!(is_ttl_service_registered(&inline));
}

#[test]
fn expired_row_ids_are_bare() {
    let text = IdCell::Text("ttl_tbl:row1".to_string());
    assert_eq!(bare_record_id(Some(&text)), Some("row1".to_string()));
    let plain = IdCell::Text("row2".to_string());
    assert_eq!(bare_record_id(Some(&plain)), Some("row2".to_string()));
    let obj = IdCell::Object { id: Some("row3".to_string()), keyed: true, rendered: String::new() };
    assert_eq!(bare_record_id(Some(&obj)), Some("row3".to_string()));
    let empty = IdCell::Object { id: Some(String::new()), keyed: true, rendered: String::new() };
    assert_eq!(bare_record_id(Some(&empty)), None);
    assert_eq!(bare_record_id(None), None);
    let rows = vec![Some(text), None, Some(IdCell::Other { rendered: "1".into() }), Some(plain)];
    assert_eq!(
        expired_ids_from_rows(&rows),
        vec!["row1".to_string(), "row2".to_string()]
    );
}

#[test]
fn error_classes() {
    assert_eq!(error_class(&PlatformError::Validation("x".into())), "validation");
    assert_eq!(error_class(&PlatformError::NotFound("x".into())), "not_found");
    assert_eq!(error_class(&PlatformError::Database("x".into())), "database");
    assert_eq!(error_class(&PlatformError::Internal("x".into())), "internal");
    assert_eq!(error_class(&PlatformError::Privacy("x".into())), "privacy");
    assert_eq!(
        error_class(&PlatformError::PendingDeletion("x".into())),
        "pending_deletion"
    );
    assert_eq!(error_class(&PlatformError::Serialization("x".into())), "serialization");
    assert_eq!(error_class(&PlatformError::Identity("x".into())), "identity");
}
