//! The guarded operation executor for code upgrades: a chain of composable
//! guard stages around the privileged install primitive — checksum gate,
//! controller gate, caller gate, stop-before, start-after, logging, and
//! optional detached execution.

use vstd::prelude::*;

use crate::model::UpgradeParams;

verus! {

/// Identifier of an independently upgradable compute unit, the numeric form
/// of its principal.
pub type CanisterId = u128;

/// Errors of the upgrade pipeline: one per guard stage, one wrapping any
/// downstream transport failure, and a catch-all.
#[derive(Clone, Debug, PartialEq, Eq)]
pub enum UpgradeError {
    ChecksumMismatch,
    NotController,
    Unauthorized,
    RemoteCallFailed(String),
    UnexpectedError(String),
}

impl UpgradeError {
    /// A stable label for the log sink.
    pub fn status_label(&self) -> (r: &'static str)
        ensures
            self is ChecksumMismatch ==> r@ == "upgrade checksum mismatch"@,
            self is NotController ==> r@ == "canister is not a controller of target canister"@,
            self is Unauthorized ==> r@ == "unauthorized"@,
            self is RemoteCallFailed ==> r@ == "remote call failed"@,
            self is UnexpectedError ==> r@ == "unexpected error"@,
    {
        match self {
            UpgradeError::ChecksumMismatch => "upgrade checksum mismatch",
            UpgradeError::NotController => "canister is not a controller of target canister",
            UpgradeError::Unauthorized => "unauthorized",
            UpgradeError::RemoteCallFailed(_) => "remote call failed",
            UpgradeError::UnexpectedError(_) => "unexpected error",
        }
    }
}

/// Wire-level error of the upgrade trigger entry point.
#[derive(Clone, Debug, PartialEq, Eq)]
pub enum TriggerUpgradeError {
    NotController,
    Unauthorized,
    UnexpectedError(String),
}

/// Wire-level response of the upgrade trigger entry point.
#[derive(Clone, Debug, PartialEq, Eq)]
pub enum TriggerUpgradeResponse {
    Accepted,
    Failed(TriggerUpgradeError),
}

impl UpgradeError {
    /// Folds a pipeline error into the wire-level response; the checksum
    /// gate's refusal travels as an unexpected error, as the wire format
    /// has no variant of its own for it.
    pub fn into_trigger_response(self) -> (r: TriggerUpgradeResponse)
        ensures
            self is NotController ==> r matches TriggerUpgradeResponse::Failed(
                TriggerUpgradeError::NotController,
            ),
            self is Unauthorized ==> r matches TriggerUpgradeResponse::Failed(
                TriggerUpgradeError::Unauthorized,
            ),
            self is ChecksumMismatch ==> (r matches TriggerUpgradeResponse::Failed(
                TriggerUpgradeError::UnexpectedError(m),
            ) && m@ == "upgrade checksum mismatch"@),
            self matches UpgradeError::RemoteCallFailed(m) ==> (r matches
                TriggerUpgradeResponse::Failed(TriggerUpgradeError::UnexpectedError(m2)) && m2@
                == m@),
            self matches UpgradeError::UnexpectedError(m) ==> (r matches
                TriggerUpgradeResponse::Failed(TriggerUpgradeError::UnexpectedError(m2)) && m2@
                == m@),
    {
        match self {
            UpgradeError::NotController => TriggerUpgradeResponse::Failed(
                TriggerUpgradeError::NotController,
            ),
            UpgradeError::Unauthorized => TriggerUpgradeResponse::Failed(
                TriggerUpgradeError::Unauthorized,
            ),
            UpgradeError::ChecksumMismatch => TriggerUpgradeResponse::Failed(
                TriggerUpgradeError::UnexpectedError("upgrade checksum mismatch".to_owned()),
            ),
            UpgradeError::RemoteCallFailed(m) => TriggerUpgradeResponse::Failed(
                TriggerUpgradeError::UnexpectedError(m),
            ),
            UpgradeError::UnexpectedError(m) => TriggerUpgradeResponse::Failed(
                TriggerUpgradeError::UnexpectedError(m),
            ),
        }
    }
}

/// The execution outcome the lifecycle records for a finished pipeline
/// run: success, or the guard stage that refused.
pub fn execution_outcome_of(r: &Result<(), UpgradeError>) -> (outcome:
    crate::model::ExecutionOutcome)
    ensures
        r is Ok ==> outcome is Succeeded,
        (r is Err && r->Err_0 is ChecksumMismatch) ==> outcome is FailedChecksumMismatch,
        (r is Err && r->Err_0 is NotController) ==> outcome is FailedNotController,
        (r is Err && r->Err_0 is Unauthorized) ==> outcome is FailedUnauthorized,
        (r is Err && r->Err_0 is RemoteCallFailed) ==> outcome is FailedRemoteCall,
        (r is Err && r->Err_0 is UnexpectedError) ==> outcome is FailedUnexpected,
{
    match r {
        Ok(()) => crate::model::ExecutionOutcome::Succeeded,
        Err(UpgradeError::ChecksumMismatch) => {
            crate::model::ExecutionOutcome::FailedChecksumMismatch
        },
        Err(UpgradeError::NotController) => crate::model::ExecutionOutcome::FailedNotController,
        Err(UpgradeError::Unauthorized) => crate::model::ExecutionOutcome::FailedUnauthorized,
        Err(UpgradeError::RemoteCallFailed(_)) => crate::model::ExecutionOutcome::FailedRemoteCall,
        Err(UpgradeError::UnexpectedError(_)) => crate::model::ExecutionOutcome::FailedUnexpected,
    }
}

/// Digest provider behind the checksum gate; implementors supply the
/// deployment's hash function.
pub trait Hash {
    fn hash(&mut self, data: &Vec<u8>) -> Vec<u8>;
}

/// One stage of the upgrade pipeline: the single capability interface that
/// every guard stage wraps and implements in turn.
pub trait Upgrade {
    fn upgrade(&mut self, ps: &UpgradeParams) -> Result<(), UpgradeError>;
}

/// The privileged code-replacement primitive behind the innermost stage.
pub trait InstallCode {
    fn install_code(&mut self, target: CanisterId, ps: &UpgradeParams) -> Result<
        (),
        UpgradeError,
    >;
}

/// Control plane of the target unit: quiesce and resume, controller
/// information, the ambient caller, and the log sink.
pub trait CanisterHost {
    fn caller(&mut self) -> CanisterId;

    fn self_id(&mut self) -> CanisterId;

    fn stop(&mut self, target: CanisterId) -> Result<(), String>;

    fn start(&mut self, target: CanisterId) -> Result<(), String>;

    fn controllers(&mut self, target: CanisterId) -> Result<Vec<CanisterId>, String>;

    fn log(&mut self, action: &str, status: &str);
}

/// Byte-wise equality of two buffers.
pub fn eq_bytes(a: &Vec<u8>, b: &Vec<u8>) -> (r: bool)
    ensures
        r == (a@ == b@),
{
    if a.len() != b.len() {
        return false;
    }
    let mut k: usize = 0;
    while k < a.len()
        invariant
            0 <= k <= a@.len(),
            a@.len() == b@.len(),
            forall|i: int| 0 <= i < k ==> a@[i] == b@[i],
        decreases a@.len() - k,
    {
        if a[k] != b[k] {
            return false;
        }
        k = k + 1;
    }
    proof {
        assert(a@ =~= b@);
    }
    true
}

/// The checksum gate: accepts exactly when the computed digest equals the
/// declared checksum, and otherwise refuses with `ChecksumMismatch`.
pub fn check_checksum(digest: &Vec<u8>, declared: &Vec<u8>) -> (r: Result<(), UpgradeError>)
    ensures
        r is Ok <==> digest@ == declared@,
        r is Err ==> r->Err_0 is ChecksumMismatch,
{
    if eq_bytes(digest, declared) {
        Ok(())
    } else {
        Err(UpgradeError::ChecksumMismatch)
    }
}

/// The controller gate: accepts exactly when the engine is among the
/// controllers of the target unit, and otherwise refuses with
/// `NotController`.
pub fn check_controller(controllers: &Vec<CanisterId>, engine: CanisterId) -> (r: Result<
    (),
    UpgradeError,
>)
    ensures
        r is Ok <==> controllers@.contains(engine),
        r is Err ==> r->Err_0 is NotController,
{
    let mut k: usize = 0;
    while k < controllers.len()
        invariant
            0 <= k <= controllers@.len(),
            forall|i: int| 0 <= i < k ==> controllers@[i] != engine,
        decreases controllers@.len() - k,
    {
        if controllers[k] == engine {
            return Ok(());
        }
        k = k + 1;
    }
    Err(UpgradeError::NotController)
}

/// The caller gate: accepts exactly when the effective caller of the
/// install action is the engine's own unit, and otherwise refuses with
/// `Unauthorized`.
pub fn check_caller(caller: CanisterId, expected: CanisterId) -> (r: Result<(), UpgradeError>)
    ensures
        r is Ok <==> caller == expected,
        r is Err ==> r->Err_0 is Unauthorized,
{
    if caller == expected {
        Ok(())
    } else {
        Err(UpgradeError::Unauthorized)
    }
}

/// Merge rule of the start-after stage: the install outcome wins; a start
/// failure after a successful install does not revert it (the code is
/// already installed), it is surfaced through the log only.
pub fn merge_start_outcome(install: Result<(), UpgradeError>, started: Result<(), String>) -> (r:
    Result<(), UpgradeError>)
    ensures
        install is Err ==> r == install,
        install is Ok ==> r is Ok,
{
    let _ = started;
    match install {
        Err(e) => Err(e),
        Ok(()) => Ok(()),
    }
}

/// The innermost stage: resolves the stored target unit and invokes the
/// install primitive on it.
pub struct Upgrader<I> {
    pub target: Option<CanisterId>,
    pub installer: I,
}

impl<I> Upgrader<I> {
    pub fn new(target: Option<CanisterId>, installer: I) -> (r: Self)
        ensures
            r.target == target,
            r.installer == installer,
    {
        Upgrader { target, installer }
    }
}

impl<I: InstallCode> Upgrade for Upgrader<I> {
    /// Refuses with the unexpected-configuration error, before any install
    /// call, when no target unit has been configured; otherwise the install
    /// primitive decides. The stored target never moves.
    fn upgrade(&mut self, ps: &UpgradeParams) -> (r: Result<(), UpgradeError>)
        ensures
            old(self).target is None ==> (r is Err && r->Err_0 is UnexpectedError && *final(self)
                == *old(self)),
            final(self).target == old(self).target,
    {
        match self.target {
            None => Err(UpgradeError::UnexpectedError("canister id not set".to_owned())),
            Some(t) => self.installer.install_code(t, ps),
        }
    }
}

/// Guard stage: verify the declared checksum against the computed digest of
/// the module bytes before any side effect.
pub struct VerifyChecksum<T, H>(pub T, pub H);

impl<T: Upgrade, H: Hash> Upgrade for VerifyChecksum<T, H> {
    /// A mismatch aborts the pipeline before the inner stage runs.
    fn upgrade(&mut self, ps: &UpgradeParams) -> Result<(), UpgradeError> {
        let digest = self.1.hash(&ps.module);
        match check_checksum(&digest, &ps.checksum) {
            Err(e) => Err(e),
            Ok(()) => self.0.upgrade(ps),
        }
    }
}

/// Guard stage: re-validate that the effective caller of the install action
/// is the target unit itself.
pub struct WithAuthorization<T, H>(pub T, pub CanisterId, pub H);

impl<T: Upgrade, H: CanisterHost> Upgrade for WithAuthorization<T, H> {
    fn upgrade(&mut self, ps: &UpgradeParams) -> Result<(), UpgradeError> {
        let caller = self.2.caller();
        match check_caller(caller, self.1) {
            Err(e) => Err(e),
            Ok(()) => self.0.upgrade(ps),
        }
    }
}

/// Guard stage: verify that this engine is registered as an administrative
/// controller of the target unit.
pub struct CheckController<T, H>(pub T, pub CanisterId, pub H);

impl<T: Upgrade, H: CanisterHost> Upgrade for CheckController<T, H> {
    fn upgrade(&mut self, ps: &UpgradeParams) -> Result<(), UpgradeError> {
        let engine = self.2.self_id();
        match self.2.controllers(self.1) {
            Err(e) => Err(UpgradeError::RemoteCallFailed(e)),
            Ok(cs) => match check_controller(&cs, engine) {
                Err(e) => Err(e),
                Ok(()) => self.0.upgrade(ps),
            },
        }
    }
}

/// Guard stage: quiesce the target unit before code installation, so no
/// state mutates concurrently with the install.
pub struct WithStop<T, H>(pub T, pub CanisterId, pub H);

impl<T: Upgrade, H: CanisterHost> Upgrade for WithStop<T, H> {
    fn upgrade(&mut self, ps: &UpgradeParams) -> Result<(), UpgradeError> {
        match self.2.stop(self.1) {
            Err(e) => Err(UpgradeError::RemoteCallFailed(e)),
            Ok(()) => self.0.upgrade(ps),
        }
    }
}

/// Guard stage: resume the target unit after the inner stage, whether the
/// install succeeded or failed — a failed install must not leave the target
/// permanently stopped.
pub struct WithStart<T, H>(pub T, pub CanisterId, pub H);

impl<T: Upgrade, H: CanisterHost> Upgrade for WithStart<T, H> {
    fn upgrade(&mut self, ps: &UpgradeParams) -> Result<(), UpgradeError> {
        let out = self.0.upgrade(ps);
        let started = self.2.start(self.1);
        if let Err(msg) = &started {
            self.2.log("start_after", msg.as_str());
        }
        merge_start_outcome(out, started)
    }
}

/// Guard stage: record the outcome of the wrapped stages under a stable
/// action label.
pub struct WithLogs<T, H>(pub T, pub String, pub H);

impl<T: Upgrade, H: CanisterHost> Upgrade for WithLogs<T, H> {
    fn upgrade(&mut self, ps: &UpgradeParams) -> Result<(), UpgradeError> {
        let out = self.0.upgrade(ps);
        match &out {
            Ok(_) => self.2.log(self.1.as_str(), "ok"),
            Err(e) => self.2.log(self.1.as_str(), e.status_label()),
        }
        out
    }
}

/// Detached execution: run the wrapped pipeline to completion, discard its
/// outcome, and report immediate acceptance; the eventual result is only
/// visible through the persisted state and the log sink.
pub struct WithBackground<T>(pub T);

impl<T: Upgrade> Upgrade for WithBackground<T> {
    fn upgrade(&mut self, ps: &UpgradeParams) -> (r: Result<(), UpgradeError>)
        ensures
            r is Ok,
    {
        let _ = self.0.upgrade(ps);
        Ok(())
    }
}

} // verus!
