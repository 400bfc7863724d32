use dirsize::adjusted_contribution;
use dirsize::aggregate_outcomes;
use dirsize::classify_walk_failure;
use dirsize::resolve_threads;
use dirsize::resolve_unit;
use dirsize::should_resolve;
use dirsize::DirsizeError;
use dirsize::Entry;
use dirsize::EntryOutcome;
use dirsize::SizeUnit;
use dirsize::TraversalState;

fn resolved(path: &str, len: u64, nlink: u64) -> EntryOutcome {
    EntryOutcome::Resolved { path: path.to_string(), len, nlink }
}

#[test]
fn three_files_no_hard_links() {
    let outcomes = vec![
        resolved("/t/a", 100, 1),
        resolved("/t/b", 200, 1),
        resolved("/t/c", 300, 1),
    ];
    let mut result = aggregate_outcomes(outcomes, None);
    assert_eq!(result.size, 600);
    assert_eq!(result.file_cnt, 3);
    assert!(!result.has_errors());
    assert_eq!(result.take_errors(), None);
}

#[test]
fn hard_linked_pair_counts_once() {
    let outcomes = vec![resolved("/t/one", 100, 2), resolved("/t/two", 100, 2)];
    let result = aggregate_outcomes(outcomes, None);
    assert_eq!(result.size, 100);
    assert_eq!(result.file_cnt, 2);
}

#[test]
fn hard_links_with_independent_file() {
    let outcomes = vec![
        resolved("/t/one", 100, 2),
        resolved("/t/two", 100, 2),
        resolved("/t/three", 50, 1),
    ];
    let result = aggregate_outcomes(outcomes, None);
    assert_eq!(result.file_cnt, 3);
    assert_eq!(result.size, 150);
}

#[test]
fn inaccessible_subdirectory_is_recorded() {
    let outcomes = vec![
        EntryOutcome::WalkFailed {
            path: Some("/t/locked".to_string()),
            permission_denied: true,
        },
        resolved("/t/a", 10, 1),
        resolved("/t/b", 20, 1),
    ];
    let mut result = aggregate_outcomes(outcomes, None);
    assert_eq!(result.file_cnt, 2);
    assert_eq!(result.size, 30);
    assert!(result.has_errors());
    let errors = result.take_errors().unwrap();
    assert_eq!(
        errors,
        vec![DirsizeError::PermissionDenied("/t/locked".to_string())]
    );
}

#[test]
fn single_link_contributes_raw_length() {
    assert_eq!(adjusted_contribution(12345, 1), 12345);
    assert_eq!(adjusted_contribution(0, 1), 0);
}

#[test]
fn contribution_uses_floor_division() {
    assert_eq!(adjusted_contribution(101, 2), 50);
    assert_eq!(adjusted_contribution(7, 3), 2);
    assert_eq!(adjusted_contribution(100, 3), 33);
}

#[test]
fn errors_absent_when_no_failures() {
    let outcomes = vec![resolved("/t/a", 1, 1)];
    let mut result = aggregate_outcomes(outcomes, None);
    assert!(!result.has_errors());
    assert_eq!(result.take_errors(), None);
}

#[test]
fn take_errors_consumes_the_list() {
    let outcomes = vec![EntryOutcome::MetadataFailed { path: "/t/gone".to_string() }];
    let mut result = aggregate_outcomes(outcomes, None);
    assert!(result.has_errors());
    let first = result.take_errors();
    assert_eq!(
        first,
        Some(vec![DirsizeError::Metadata("/t/gone".to_string())])
    );
    assert!(!result.has_errors());
    assert_eq!(result.take_errors(), None);
}

#[test]
fn metadata_failure_recorded_not_counted() {
    let outcomes = vec![
        EntryOutcome::MetadataFailed { path: "/t/x".to_string() },
        resolved("/t/y", 5, 1),
    ];
    let mut result = aggregate_outcomes(outcomes, None);
    assert_eq!(result.file_cnt, 1);
    assert_eq!(result.size, 5);
    let errors = result.take_errors().unwrap();
    assert_eq!(errors, vec![DirsizeError::Metadata("/t/x".to_string())]);
}

#[test]
fn walk_failure_classification() {
    assert_eq!(
        classify_walk_failure(Some("/t/p".to_string()), true),
        DirsizeError::PermissionDenied("/t/p".to_string())
    );
    assert_eq!(
        classify_walk_failure(Some("/t/p".to_string()), false),
        DirsizeError::UnknownError
    );
    assert_eq!(classify_walk_failure(None, true), DirsizeError::UnknownError);
    assert_eq!(classify_walk_failure(None, false), DirsizeError::UnknownError);
}

#[test]
fn unclassifiable_walk_failure_still_recorded() {
    let outcomes = vec![EntryOutcome::WalkFailed { path: None, permission_denied: false }];
    let mut result = aggregate_outcomes(outcomes, None);
    assert_eq!(result.file_cnt, 0);
    assert_eq!(result.size, 0);
    let errors = result.take_errors().unwrap();
    assert_eq!(errors, vec![DirsizeError::UnknownError]);
}

#[test]
fn symlinks_are_not_resolved() {
    let link = Entry { path: "/t/link".to_string(), is_symlink: true };
    let file = Entry { path: "/t/file".to_string(), is_symlink: false };
    assert!(!should_resolve(&link));
    assert!(should_resolve(&file));
}

#[test]
fn unit_defaults_to_gb() {
    let result = aggregate_outcomes(vec![resolved("/t/a", 1, 1)], None);
    assert_eq!(result.unit, SizeUnit::GB);
    let result = aggregate_outcomes(vec![], Some(SizeUnit::MiB));
    assert_eq!(result.unit, SizeUnit::MiB);
    assert_eq!(resolve_unit(None), SizeUnit::GB);
    assert_eq!(resolve_unit(Some(SizeUnit::KiB)), SizeUnit::KiB);
}

#[test]
fn threads_default_to_runtime_choice() {
    assert_eq!(resolve_threads(None), 0);
    assert_eq!(resolve_threads(Some(8)), 8);
}

#[test]
fn aggregation_is_order_independent() {
    let forward = vec![
        resolved("/t/a", 100, 1),
        resolved("/t/b", 201, 2),
        EntryOutcome::MetadataFailed { path: "/t/c".to_string() },
        resolved("/t/d", 300, 3),
    ];
    let backward = vec![
        resolved("/t/d", 300, 3),
        EntryOutcome::MetadataFailed { path: "/t/c".to_string() },
        resolved("/t/b", 201, 2),
        resolved("/t/a", 100, 1),
    ];
    let mut r1 = aggregate_outcomes(forward, None);
    let mut r2 = aggregate_outcomes(backward, None);
    assert_eq!(r1.size, r2.size);
    assert_eq!(r1.size, 100 + 100 + 100);
    assert_eq!(r1.file_cnt, r2.file_cnt);
    let mut e1 = r1.take_errors().unwrap();
    let mut e2 = r2.take_errors().unwrap();
    e1.sort_by(|a, b| format!("{:?}", a).cmp(&format!("{:?}", b)));
    e2.sort_by(|a, b| format!("{:?}", a).cmp(&format!("{:?}", b)));
    assert_eq!(e1, e2);
}

#[test]
fn empty_tree_yields_empty_result() {
    let mut result = aggregate_outcomes(vec![], None);
    assert_eq!(result.size, 0);
    assert_eq!(result.file_cnt, 0);
    assert!(!result.has_errors());
    assert_eq!(result.take_errors(), None);
}

#[test]
fn stepwise_fold_matches_batch_aggregation() {
    let outcomes = || {
        vec![
            resolved("/t/a", 99, 2),
            EntryOutcome::WalkFailed {
                path: Some("/t/locked".to_string()),
                permission_denied: true,
            },
            resolved("/t/b", 7, 1),
        ]
    };
    let mut state = TraversalState::new();
    for outcome in outcomes() {
        state.record_outcome(outcome);
    }
    let stepped = state.into_result(SizeUnit::GB);
    let batched = aggregate_outcomes(outcomes(), None);
    assert_eq!(stepped.size, batched.size);
    assert_eq!(stepped.size, 49 + 7);
    assert_eq!(stepped.file_cnt, batched.file_cnt);
    assert_eq!(stepped.file_cnt, 2);
    assert_eq!(stepped.unit, batched.unit);
}
