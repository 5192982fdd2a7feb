use nocheat::boundary::{status_code, BoundaryOutcome};

#[test]
fn boundary_status_codes_are_stable() {
    assert_eq!(status_code(&BoundaryOutcome::Delivered), 0);
    assert_eq!(status_code(&BoundaryOutcome::NullPointer), -1);
    assert_eq!(status_code(&BoundaryOutcome::DecodeFailed), -2);
    assert_eq!(status_code(&BoundaryOutcome::AnalysisFailed), -3);
    assert_eq!(status_code(&BoundaryOutcome::EncodeFailed), -4);
    assert_eq!(status_code(&BoundaryOutcome::AllocationFailed), -5);
}

#[test]
fn boundary_status_codes_are_distinct() {
    let outcomes = [
        BoundaryOutcome::Delivered,
        BoundaryOutcome::NullPointer,
        BoundaryOutcome::DecodeFailed,
        BoundaryOutcome::AnalysisFailed,
        BoundaryOutcome::EncodeFailed,
        BoundaryOutcome::AllocationFailed,
    ];
    for (i, a) in outcomes.iter().enumerate() {
        for (j, b) in outcomes.iter().enumerate() {
            if i != j {
                assert_ne!(status_code(a), status_code(b));
            }
        }
    }
}
