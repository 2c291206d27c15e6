use iris::api::s16::action::{
    ActionError, Cleanup, FailureKind, Rejection, Stage, StopReason, finalize,
};
use iris::database::DbError;

fn protocol_error(detail: &str) -> DbError {
    DbError { code: None, detail: detail.to_string() }
}

fn busy_error() -> DbError {
    DbError { code: Some("5".to_string()), detail: "database is locked".to_string() }
}

#[test]
fn cleanup_preserves_both_primary_kinds() {
    for primary in [
        StopReason::Rejected(Rejection::LastOwner),
        StopReason::Execution {
            stage: Stage::Body,
            kind: FailureKind::Busy,
        },
    ] {
        // Injected observation instead of calling the driver. This tests
        // finalization, not SQLite rollback-failure behavior.
        let result = finalize(primary, Err(protocol_error("secret-canary")));
        assert!(matches!(
            result,
            ActionError::Failed {
                cleanup: Cleanup::Unconfirmed {
                    rollback_error: Some(FailureKind::Other)
                },
                ..
            }
        ));
        assert!(!format!("{result:?}").contains("secret-canary"));
        match result {
            ActionError::Failed {
                primary: StopReason::Rejected(r),
                ..
            } => assert_eq!(r, Rejection::LastOwner),
            ActionError::Failed {
                primary: StopReason::Execution { stage, kind },
                ..
            } => {
                assert_eq!(stage, Stage::Body);
                assert_eq!(kind, FailureKind::Busy);
            }
            _ => unreachable!(),
        }
    }
}

#[test]
fn confirmed_rollback_of_a_rejection_is_the_rejection() {
    let result = finalize(StopReason::Rejected(Rejection::Forbidden), Ok(()));
    assert_eq!(result, ActionError::Rejected(Rejection::Forbidden));
}

#[test]
fn confirmed_rollback_of_an_execution_failure_is_acknowledged() {
    let result = finalize(
        StopReason::Execution { stage: Stage::Body, kind: FailureKind::Other },
        Ok(()),
    );
    assert_eq!(
        result,
        ActionError::Failed {
            primary: StopReason::Execution { stage: Stage::Body, kind: FailureKind::Other },
            cleanup: Cleanup::RollbackAcknowledged,
        }
    );
}

#[test]
fn busy_rollback_is_classified_busy() {
    let result = finalize(StopReason::Rejected(Rejection::LastOwner), Err(busy_error()));
    assert_eq!(
        result,
        ActionError::Failed {
            primary: StopReason::Rejected(Rejection::LastOwner),
            cleanup: Cleanup::Unconfirmed { rollback_error: Some(FailureKind::Busy) },
        }
    );
}
