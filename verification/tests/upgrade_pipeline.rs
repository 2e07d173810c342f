use station::model::ExecutionOutcome;
use station::model::UpgradeParams;
use station::upgrade::execution_outcome_of;
use station::upgrade::{
    check_caller, check_checksum, check_controller, merge_start_outcome, CanisterHost,
    CanisterId, CheckController, InstallCode, TriggerUpgradeError, TriggerUpgradeResponse,
    Upgrade, UpgradeError, Upgrader, VerifyChecksum, WithAuthorization, WithBackground,
    WithLogs, WithStart, WithStop,
};

struct FakeHash {
    calls: u32,
    expected_input: Vec<u8>,
    output: Vec<u8>,
}

impl station::upgrade::Hash for FakeHash {
    fn hash(&mut self, data: &Vec<u8>) -> Vec<u8> {
        self.calls += 1;
        assert_eq!(*data, self.expected_input);
        self.output.clone()
    }
}

struct FakeUpgrade {
    calls: u32,
    expected: Option<UpgradeParams>,
    result_error: Option<UpgradeError>,
}

impl Upgrade for FakeUpgrade {
    fn upgrade(&mut self, ps: &UpgradeParams) -> Result<(), UpgradeError> {
        self.calls += 1;
        if let Some(expected) = &self.expected {
            assert_eq!(*ps, *expected);
        }
        match &self.result_error {
            None => Ok(()),
            Some(e) => Err(e.clone()),
        }
    }
}

struct FakeInstaller {
    calls: u32,
    expected_target: CanisterId,
    result_error: Option<UpgradeError>,
}

impl InstallCode for FakeInstaller {
    fn install_code(&mut self, target: CanisterId, _ps: &UpgradeParams) -> Result<(), UpgradeError> {
        self.calls += 1;
        assert_eq!(target, self.expected_target);
        match &self.result_error {
            None => Ok(()),
            Some(e) => Err(e.clone()),
        }
    }
}

struct FakeHost {
    caller_id: CanisterId,
    own_id: CanisterId,
    stop_calls: u32,
    start_calls: u32,
    stop_fails: bool,
    start_fails: bool,
    controller_list: Vec<CanisterId>,
    logs: Vec<(String, String)>,
}

impl FakeHost {
    fn quiet(own_id: CanisterId) -> Self {
        FakeHost {
            caller_id: own_id,
            own_id,
            stop_calls: 0,
            start_calls: 0,
            stop_fails: false,
            start_fails: false,
            controller_list: vec![own_id],
            logs: Vec::new(),
        }
    }
}

impl CanisterHost for FakeHost {
    fn caller(&mut self) -> CanisterId {
        self.caller_id
    }

    fn self_id(&mut self) -> CanisterId {
        self.own_id
    }

    fn stop(&mut self, _target: CanisterId) -> Result<(), String> {
        self.stop_calls += 1;
        if self.stop_fails {
            Err(String::from("stop refused"))
        } else {
            Ok(())
        }
    }

    fn start(&mut self, _target: CanisterId) -> Result<(), String> {
        self.start_calls += 1;
        if self.start_fails {
            Err(String::from("start refused"))
        } else {
            Ok(())
        }
    }

    fn controllers(&mut self, _target: CanisterId) -> Result<Vec<CanisterId>, String> {
        Ok(self.controller_list.clone())
    }

    fn log(&mut self, action: &str, status: &str) {
        self.logs.push((action.to_string(), status.to_string()));
    }
}

fn params(module: &str, arg: &str, checksum: &str) -> UpgradeParams {
    UpgradeParams {
        module: module.as_bytes().to_vec(),
        arg: arg.as_bytes().to_vec(),
        checksum: checksum.as_bytes().to_vec(),
    }
}

#[test]
fn verify_checksum_invalid() {
    let h = FakeHash {
        calls: 0,
        expected_input: "module".as_bytes().to_vec(),
        output: "other".as_bytes().to_vec(),
    };
    let u = FakeUpgrade { calls: 0, expected: None, result_error: None };
    let mut stage = VerifyChecksum(u, h);
    let out = stage.upgrade(&params("module", "arg", "hash"));
    match out {
        Err(UpgradeError::ChecksumMismatch) => {}
        _ => panic!("expected a checksum mismatch but none occurred"),
    }
    assert_eq!(stage.1.calls, 1);
    assert_eq!(stage.0.calls, 0);
}

#[test]
fn verify_checksum_valid() {
    let h = FakeHash {
        calls: 0,
        expected_input: "module".as_bytes().to_vec(),
        output: "hash".as_bytes().to_vec(),
    };
    let u = FakeUpgrade {
        calls: 0,
        expected: Some(params("module", "arg", "hash")),
        result_error: None,
    };
    let mut stage = VerifyChecksum(u, h);
    let out = stage.upgrade(&params("module", "arg", "hash"));
    match out {
        Ok(()) => {}
        _ => panic!("expected checksum verification to succeed"),
    }
    assert_eq!(stage.1.calls, 1);
    assert_eq!(stage.0.calls, 1);
}

#[test]
fn checksum_mismatch_never_reaches_installer() {
    let h = FakeHash {
        calls: 0,
        expected_input: "module".as_bytes().to_vec(),
        output: "other".as_bytes().to_vec(),
    };
    let installer = FakeInstaller { calls: 0, expected_target: 7, result_error: None };
    let inner = Upgrader::new(Some(7), installer);
    let mut stage = VerifyChecksum(inner, h);
    let out = stage.upgrade(&params("module", "arg", "hash"));
    assert!(matches!(out, Err(UpgradeError::ChecksumMismatch)));
    assert_eq!(stage.0.installer.calls, 0);
}

#[test]
fn matching_checksum_reaches_installer_once() {
    let h = FakeHash {
        calls: 0,
        expected_input: "module".as_bytes().to_vec(),
        output: "hash".as_bytes().to_vec(),
    };
    let installer = FakeInstaller { calls: 0, expected_target: 7, result_error: None };
    let inner = Upgrader::new(Some(7), installer);
    let mut stage = VerifyChecksum(inner, h);
    let out = stage.upgrade(&params("module", "arg", "hash"));
    assert!(out.is_ok());
    assert_eq!(stage.0.installer.calls, 1);
}

#[test]
fn start_after_runs_once_when_install_fails() {
    let installer = FakeInstaller {
        calls: 0,
        expected_target: 7,
        result_error: Some(UpgradeError::UnexpectedError(String::from("install refused"))),
    };
    let inner = Upgrader::new(Some(7), installer);
    let host = FakeHost::quiet(1);
    let mut stage = WithStart(inner, 7, host);
    let out = stage.upgrade(&params("module", "arg", "hash"));
    assert_eq!(stage.0.installer.calls, 1);
    assert_eq!(stage.2.start_calls, 1);
    match out {
        Err(UpgradeError::UnexpectedError(m)) => assert_eq!(m, "install refused"),
        _ => panic!("expected the install error to be reported"),
    }
}

#[test]
fn start_after_failure_keeps_successful_install() {
    let installer = FakeInstaller { calls: 0, expected_target: 7, result_error: None };
    let inner = Upgrader::new(Some(7), installer);
    let mut host = FakeHost::quiet(1);
    host.start_fails = true;
    let mut stage = WithStart(inner, 7, host);
    let out = stage.upgrade(&params("module", "arg", "hash"));
    assert!(out.is_ok());
    assert_eq!(stage.2.start_calls, 1);
    assert_eq!(stage.2.logs.len(), 1);
    assert_eq!(stage.2.logs[0].0, "start_after");
}

#[test]
fn stop_failure_aborts_before_install() {
    let u = FakeUpgrade { calls: 0, expected: None, result_error: None };
    let mut host = FakeHost::quiet(1);
    host.stop_fails = true;
    let mut stage = WithStop(u, 7, host);
    let out = stage.upgrade(&params("module", "arg", "hash"));
    assert!(matches!(out, Err(UpgradeError::RemoteCallFailed(_))));
    assert_eq!(stage.0.calls, 0);
    assert_eq!(stage.2.stop_calls, 1);
}

#[test]
fn authorization_refuses_foreign_caller() {
    let u = FakeUpgrade { calls: 0, expected: None, result_error: None };
    let mut host = FakeHost::quiet(7);
    host.caller_id = 99;
    let mut stage = WithAuthorization(u, 7, host);
    let out = stage.upgrade(&params("module", "arg", "hash"));
    assert!(matches!(out, Err(UpgradeError::Unauthorized)));
    assert_eq!(stage.0.calls, 0);
}

#[test]
fn controller_check_refuses_unregistered_engine() {
    let u = FakeUpgrade { calls: 0, expected: None, result_error: None };
    let mut host = FakeHost::quiet(5);
    host.controller_list = vec![77, 88];
    let mut stage = CheckController(u, 7, host);
    let out = stage.upgrade(&params("module", "arg", "hash"));
    assert!(matches!(out, Err(UpgradeError::NotController)));
    assert_eq!(stage.0.calls, 0);
}

#[test]
fn full_pipeline_happy_path() {
    let installer = FakeInstaller { calls: 0, expected_target: 7, result_error: None };
    let innermost = Upgrader::new(Some(7), installer);
    let with_start = WithStart(innermost, 7, FakeHost::quiet(1));
    let with_stop = WithStop(with_start, 7, FakeHost::quiet(1));
    let controller = CheckController(with_stop, 7, FakeHost::quiet(7));
    let auth = WithAuthorization(controller, 7, FakeHost::quiet(7));
    let h = FakeHash {
        calls: 0,
        expected_input: "module".as_bytes().to_vec(),
        output: "hash".as_bytes().to_vec(),
    };
    let checksum = VerifyChecksum(auth, h);
    let mut pipeline = WithLogs(checksum, String::from("upgrade"), FakeHost::quiet(1));
    let out = pipeline.upgrade(&params("module", "arg", "hash"));
    assert!(out.is_ok());
    assert_eq!(pipeline.0 .0 .0 .0 .0 .0.installer.calls, 1);
    assert_eq!(pipeline.2.logs, vec![(String::from("upgrade"), String::from("ok"))]);
}

#[test]
fn logs_record_the_failing_stage() {
    let u = FakeUpgrade {
        calls: 0,
        expected: None,
        result_error: Some(UpgradeError::ChecksumMismatch),
    };
    let mut pipeline = WithLogs(u, String::from("upgrade"), FakeHost::quiet(1));
    let out = pipeline.upgrade(&params("module", "arg", "hash"));
    assert!(matches!(out, Err(UpgradeError::ChecksumMismatch)));
    assert_eq!(
        pipeline.2.logs,
        vec![(String::from("upgrade"), String::from("upgrade checksum mismatch"))]
    );
}

#[test]
fn background_reports_immediate_acceptance() {
    let u = FakeUpgrade {
        calls: 0,
        expected: None,
        result_error: Some(UpgradeError::NotController),
    };
    let mut stage = WithBackground(u);
    let out = stage.upgrade(&params("module", "arg", "hash"));
    assert!(out.is_ok());
    assert_eq!(stage.0.calls, 1);
}

#[test]
fn upgrader_without_target_fails() {
    let installer = FakeInstaller { calls: 0, expected_target: 7, result_error: None };
    let mut inner = Upgrader::new(None, installer);
    let out = inner.upgrade(&params("module", "arg", "hash"));
    match out {
        Err(UpgradeError::UnexpectedError(m)) => assert_eq!(m, "canister id not set"),
        _ => panic!("expected an unconfigured target to be refused"),
    }
    assert_eq!(inner.installer.calls, 0);
}

#[test]
fn gate_functions_give_exact_answers() {
    assert!(check_checksum(&vec![1, 2], &vec![1, 2]).is_ok());
    assert!(matches!(
        check_checksum(&vec![1, 2], &vec![1, 3]),
        Err(UpgradeError::ChecksumMismatch)
    ));
    assert!(check_controller(&vec![4, 5, 6], 5).is_ok());
    assert!(matches!(check_controller(&vec![4, 5, 6], 9), Err(UpgradeError::NotController)));
    assert!(matches!(check_controller(&vec![], 9), Err(UpgradeError::NotController)));
    assert!(check_caller(3, 3).is_ok());
    assert!(matches!(check_caller(3, 4), Err(UpgradeError::Unauthorized)));
    assert!(merge_start_outcome(Ok(()), Err(String::from("late"))).is_ok());
    assert!(matches!(
        merge_start_outcome(Err(UpgradeError::NotController), Ok(())),
        Err(UpgradeError::NotController)
    ));
}

#[test]
fn trigger_response_mapping() {
    assert_eq!(
        UpgradeError::NotController.into_trigger_response(),
        TriggerUpgradeResponse::Failed(TriggerUpgradeError::NotController)
    );
    assert_eq!(
        UpgradeError::Unauthorized.into_trigger_response(),
        TriggerUpgradeResponse::Failed(TriggerUpgradeError::Unauthorized)
    );
    assert_eq!(
        UpgradeError::ChecksumMismatch.into_trigger_response(),
        TriggerUpgradeResponse::Failed(TriggerUpgradeError::UnexpectedError(String::from(
            "upgrade checksum mismatch"
        )))
    );
    assert_eq!(UpgradeError::Unauthorized.status_label(), "unauthorized");
    assert_eq!(UpgradeError::ChecksumMismatch.status_label(), "upgrade checksum mismatch");
}

#[test]
fn execution_outcomes_name_the_refusing_stage() {
    assert_eq!(execution_outcome_of(&Ok(())), ExecutionOutcome::Succeeded);
    assert_eq!(
        execution_outcome_of(&Err(UpgradeError::ChecksumMismatch)),
        ExecutionOutcome::FailedChecksumMismatch
    );
    assert_eq!(
        execution_outcome_of(&Err(UpgradeError::NotController)),
        ExecutionOutcome::FailedNotController
    );
    assert_eq!(
        execution_outcome_of(&Err(UpgradeError::Unauthorized)),
        ExecutionOutcome::FailedUnauthorized
    );
    assert_eq!(
        execution_outcome_of(&Err(UpgradeError::RemoteCallFailed(String::from("lost")))),
        ExecutionOutcome::FailedRemoteCall
    );
    assert_eq!(
        execution_outcome_of(&Err(UpgradeError::UnexpectedError(String::from("late")))),
        ExecutionOutcome::FailedUnexpected
    );
}
