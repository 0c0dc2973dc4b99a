use seele::runj::{ContainerExecutionReport, ContainerExecutionStatus, SchemaError};

#[test]
fn normal_report_parses_and_renders_back() {
    let report =
        ContainerExecutionReport::from_parts("NORMAL", 0, None, 12, 8, 2, 4096).unwrap();
    assert!(matches!(report.status, ContainerExecutionStatus::Normal));
    assert_eq!(report.exit_code, 0);
    assert_eq!(report.signal, None);
    assert_eq!(report.wall_time_ms, 12);
    assert_eq!(report.cpu_user_time_ms, 8);
    assert_eq!(report.cpu_kernel_time_ms, 2);
    assert_eq!(report.memory_usage_kib, 4096);
    assert_eq!(report.status.to_token(), "NORMAL");
}

#[test]
fn signal_report_keeps_signal_name() {
    let report = ContainerExecutionReport::from_parts(
        "SIGNAL_TERMINATE",
        137,
        Some("SIGKILL".to_string()),
        500,
        100,
        50,
        65536,
    )
    .unwrap();
    assert!(matches!(report.status, ContainerExecutionStatus::SignalTerminate));
    assert_eq!(report.signal, Some("SIGKILL".to_string()));
}

#[test]
fn unrecognized_status_token_is_a_schema_error() {
    match ContainerExecutionReport::from_parts("EXPLODED", 1, None, 0, 0, 0, 0) {
        Err(SchemaError::UnknownStatus(t)) => assert_eq!(t, "EXPLODED"),
        other => panic!("expected a schema error, got {:?}", other),
    }
}

#[test]
fn unknown_is_only_accepted_verbatim() {
    let report = ContainerExecutionReport::from_parts("UNKNOWN", -1, None, 0, 0, 0, 0).unwrap();
    assert!(matches!(report.status, ContainerExecutionStatus::Unknown));
    match ContainerExecutionReport::from_parts("unknown", -1, None, 0, 0, 0, 0) {
        Err(SchemaError::UnknownStatus(t)) => assert_eq!(t, "unknown"),
        other => panic!("expected a schema error, got {:?}", other),
    }
}

#[test]
fn every_status_token_round_trips() {
    let statuses = vec![
        ContainerExecutionStatus::Normal,
        ContainerExecutionStatus::RuntimeError,
        ContainerExecutionStatus::SignalTerminate,
        ContainerExecutionStatus::UserTimeLimitExceeded,
        ContainerExecutionStatus::WallTimeLimitExceeded,
        ContainerExecutionStatus::MemoryLimitExceeded,
        ContainerExecutionStatus::OutputLimitExceeded,
        ContainerExecutionStatus::Unknown,
    ];
    for status in statuses {
        let token = status.to_token();
        let back = ContainerExecutionStatus::from_token(&token).unwrap();
        assert_eq!(back, status);
    }
}

#[test]
fn status_tokens_are_the_canonical_strings() {
    assert_eq!(ContainerExecutionStatus::Normal.to_token(), "NORMAL");
    assert_eq!(ContainerExecutionStatus::RuntimeError.to_token(), "RUNTIME_ERROR");
    assert_eq!(ContainerExecutionStatus::SignalTerminate.to_token(), "SIGNAL_TERMINATE");
    assert_eq!(
        ContainerExecutionStatus::UserTimeLimitExceeded.to_token(),
        "USER_TIME_LIMIT_EXCEEDED"
    );
    assert_eq!(
        ContainerExecutionStatus::WallTimeLimitExceeded.to_token(),
        "WALL_TIME_LIMIT_EXCEEDED"
    );
    assert_eq!(
        ContainerExecutionStatus::MemoryLimitExceeded.to_token(),
        "MEMORY_LIMIT_EXCEEDED"
    );
    assert_eq!(
        ContainerExecutionStatus::OutputLimitExceeded.to_token(),
        "OUTPUT_LIMIT_EXCEEDED"
    );
    assert_eq!(ContainerExecutionStatus::Unknown.to_token(), "UNKNOWN");
}
