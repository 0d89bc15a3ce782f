//! The deployment orchestrator: the order in which a source checkout
//! becomes a running version of a service.
//!
//! The orchestrator decides; its caller acts.  A `Deployment` says which
//! action is due (`next_action`), the caller performs it and reports what
//! came of it (`step`).  Every failure ends the deployment: no later action
//! is ever asked for.

use crate::api::{LaunchWorkerRequest, LaunchWorkerResponse, ServiceDeployRequest, ServiceDeployResponse};
use crate::poller::PollOutcome;
use crate::remote::{
    build_command,
    build_command_of,
    make_deployment_dir_command,
    make_deployment_dir_command_text,
    remote_package_path,
    remote_package_path_of,
    unpack_command,
    unpack_command_of,
    worker_address,
    worker_address_of,
    BUILD_WORKER_USER,
    PACKAGE_MODE,
};
use crate::schemas::{Service, Worker};
use crate::staging::BUILD_LOCATION;
use crate::text::concat2;
use crate::version::{resolve_version, sanitized};
use vstd::prelude::*;
use vstd::utf8::valid_utf8;

verus! {

/// The ways in which a deployment fails.
#[derive(Clone, Copy, Debug, PartialEq, Eq, Structural)]
pub enum DeployErrorKind {
    /// The version of the checkout could not be determined.
    VersionResolution,
    /// The service refused to launch the build worker or to describe it.
    Provisioning,
    /// A job was still pending when its timeout elapsed.
    PollTimeout,
    /// A job failed, or its status could not be fetched.
    PollFailure,
    /// A local file or directory could not be read, written or removed.
    Filesystem,
    /// An exclusion rule is no valid glob.
    PatternCompile,
    /// The session with the build worker could not be opened.
    Network,
    /// A remote command could not be run, or the build ended with a
    /// non-zero exit status.
    RemoteExecution,
    /// The package could not be uploaded.
    Upload,
    /// The service refused to start the deployment.
    TriggerDeploy,
}

/// Why a deployment failed.
#[derive(Clone, Debug, PartialEq, Eq)]
pub struct DeployError {
    pub kind: DeployErrorKind,
    pub message: String,
}

/// Why no build package came about.
#[derive(Clone, Debug, PartialEq, Eq)]
pub enum PackageFailure {
    /// An exclusion rule is no valid glob.
    Pattern(String),
    /// Staging or archiving failed on the local file system.
    Filesystem(String),
}

/// Where a deployment stands: the action that is due, or how it ended.
#[derive(Clone, Copy, Debug, PartialEq, Eq, Structural)]
pub enum DeployPhase {
    ResolvingVersion,
    LaunchingWorker,
    AwaitingWorker,
    FetchingWorker,
    WritingKey,
    Packaging,
    Connecting,
    Uploading,
    MakingRemoteDir,
    Unpacking,
    Cleaning,
    Building,
    Triggering,
    AwaitingDeploy,
    Succeeded,
    Failed(DeployErrorKind),
}

/// What the caller reports back after an action.
#[derive(Debug, PartialEq, Eq)]
pub enum DeployEvent {
    /// The version command ran: whether it succeeded, and what it printed.
    VersionCommandRan { success: bool, output: Vec<u8> },
    /// The answer to the request for a build worker.
    WorkerLaunched(Result<LaunchWorkerResponse, String>),
    /// The wait for a job is over.
    JobFinished(PollOutcome),
    /// The answer to the request for the worker's details.
    WorkerFetched(Result<Worker, String>),
    /// The key file is in place, or could not be written.
    KeyWritten(Result<(), String>),
    /// The build package is on disk under this name, or was not built.
    PackageBuilt(Result<String, PackageFailure>),
    /// The session with the worker is open, or could not be opened.
    Connected(Result<(), String>),
    /// The package is on the worker, or could not be sent.
    Uploaded(Result<(), String>),
    /// A remote command ended with this exit status, or could not be run.
    CommandRan(Result<i32, String>),
    /// The local package and staging directory are gone, or could not be
    /// removed.
    Cleaned(Result<(), String>),
    /// The answer to the request to deploy.
    DeployTriggered(Result<ServiceDeployResponse, String>),
}

/// What the caller is asked to do.
#[derive(Debug, PartialEq, Eq)]
pub enum DeployAction {
    /// Ask version control for the short hash of the checked-out commit.
    ResolveVersion,
    /// Ask the service for a build worker.
    LaunchWorker { service_slug: String, request: LaunchWorkerRequest },
    /// Wait for the job `run_slug` to end.
    AwaitJob { run_slug: String },
    /// Ask the service for the worker's details.
    FetchWorker { worker_slug: String },
    /// Write the worker's private key to `path`, read-only, unless the file
    /// is there already.
    WriteKey { path: String, contents: String },
    /// Stage the working tree and archive it.
    BuildPackage,
    /// Open a session with the worker.
    Connect { address: String, user: String, key_path: String },
    /// Send the package to the worker.
    Upload { local_path: String, remote_path: String, mode: i32 },
    /// Run `command` on the worker, showing its output as it comes.
    Execute { command: String },
    /// Remove the local package and the staging directory.
    RemoveLocal { package: String, staging_dir: String },
    /// Ask the service to deploy the version.
    TriggerDeploy { service_slug: String, request: ServiceDeployRequest },
    /// Stop and report.  `leftover_package` names the local package that is
    /// still on disk, with the staging directory, and should be removed.
    Finish { outcome: Result<(), DeployError>, leftover_package: Option<String> },
}

/// The mathematical value of a `DeployAction`.
pub enum DeployActionView {
    ResolveVersion,
    LaunchWorker { service_slug: Seq<char>, version: Seq<char> },
    AwaitJob { run_slug: Seq<char> },
    FetchWorker { worker_slug: Seq<char> },
    WriteKey { path: Seq<char>, contents: Seq<char> },
    BuildPackage,
    Connect { address: Seq<char>, user: Seq<char>, key_path: Seq<char> },
    Upload { local_path: Seq<char>, remote_path: Seq<char>, mode: i32 },
    Execute { command: Seq<char> },
    RemoveLocal { package: Seq<char>, staging_dir: Seq<char> },
    TriggerDeploy { service_slug: Seq<char>, version: Seq<char> },
    Succeed,
    Fail { kind: DeployErrorKind, message: Seq<char>, leftover_package: Option<Seq<char>> },
}

impl View for DeployAction {
    type V = DeployActionView;

    open spec fn view(&self) -> DeployActionView {
        match *self {
            DeployAction::ResolveVersion => DeployActionView::ResolveVersion,
            DeployAction::LaunchWorker { service_slug, request } => DeployActionView::LaunchWorker {
                service_slug: service_slug@,
                version: request.version@,
            },
            DeployAction::AwaitJob { run_slug } => DeployActionView::AwaitJob {
                run_slug: run_slug@,
            },
            DeployAction::FetchWorker { worker_slug } => DeployActionView::FetchWorker {
                worker_slug: worker_slug@,
            },
            DeployAction::WriteKey { path, contents } => DeployActionView::WriteKey {
                path: path@,
                contents: contents@,
            },
            DeployAction::BuildPackage => DeployActionView::BuildPackage,
            DeployAction::Connect { address, user, key_path } => DeployActionView::Connect {
                address: address@,
                user: user@,
                key_path: key_path@,
            },
            DeployAction::Upload { local_path, remote_path, mode } => DeployActionView::Upload {
                local_path: local_path@,
                remote_path: remote_path@,
                mode,
            },
            DeployAction::Execute { command } => DeployActionView::Execute { command: command@ },
            DeployAction::RemoveLocal { package, staging_dir } => DeployActionView::RemoveLocal {
                package: package@,
                staging_dir: staging_dir@,
            },
            DeployAction::TriggerDeploy { service_slug, request } => DeployActionView::TriggerDeploy {
                service_slug: service_slug@,
                version: request.version@,
            },
            DeployAction::Finish { outcome: Ok(_), leftover_package } => DeployActionView::Succeed,
            DeployAction::Finish {
                outcome: Err(error),
                leftover_package,
            } => DeployActionView::Fail {
                kind: error.kind,
                message: error.message@,
                leftover_package: match leftover_package {
                    Some(package) => Some(package@),
                    None => None,
                },
            },
        }
    }
}

/// The mathematical state of a deployment.
pub struct DeployState {
    pub phase: DeployPhase,
    pub service_slug: Seq<char>,
    pub build_args: Seq<Seq<char>>,
    /// The version, once resolved.
    pub version: Seq<char>,
    /// The build worker, once launched.
    pub worker_slug: Seq<char>,
    /// The job that is being, or was last, waited for.
    pub run_slug: Seq<char>,
    /// Name, key material and address of the worker, once fetched.
    pub key_name: Seq<char>,
    pub key: Seq<char>,
    pub worker_ip: Seq<char>,
    /// The build package, once built.
    pub package: Seq<char>,
    /// Whether the package and the staging directory are on disk.
    pub artifacts: bool,
    /// Why the deployment failed, once it has.
    pub failure: Seq<char>,
}

/// The state of a deployment that has not begun.
pub open spec fn initial_state(service_slug: Seq<char>, build_args: Seq<Seq<char>>) -> DeployState {
    DeployState {
        phase: DeployPhase::ResolvingVersion,
        service_slug,
        build_args,
        version: Seq::empty(),
        worker_slug: Seq::empty(),
        run_slug: Seq::empty(),
        key_name: Seq::empty(),
        key: Seq::empty(),
        worker_ip: Seq::empty(),
        package: Seq::empty(),
        artifacts: false,
        failure: Seq::empty(),
    }
}

/// `s`, failed for the reason `kind` with the diagnostic `message`.
pub open spec fn failed(s: DeployState, kind: DeployErrorKind, message: Seq<char>) -> DeployState {
    DeployState { phase: DeployPhase::Failed(kind), failure: message, ..s }
}

/// `s`, moved on to `phase`.
pub open spec fn advanced(s: DeployState, phase: DeployPhase) -> DeployState {
    DeployState { phase, ..s }
}

/// The file that holds the private key named `key_name`.
pub open spec fn key_path_of(key_name: Seq<char>) -> Seq<char> {
    key_name + ".pem"@
}

/// The state after a wait for a job ended with `outcome`: on success the
/// deployment moves on to `then`, otherwise it fails with `message`.
pub open spec fn after_job(
    s: DeployState,
    outcome: PollOutcome,
    then: DeployPhase,
    message: Seq<char>,
) -> DeployState {
    match outcome {
        PollOutcome::Succeeded => advanced(s, then),
        PollOutcome::TimedOut => failed(s, DeployErrorKind::PollTimeout, message),
        _ => failed(s, DeployErrorKind::PollFailure, message),
    }
}

/// The state after a step that either went well, which moves the
/// deployment on to `then`, or failed with a diagnostic.
pub open spec fn after_plain_step(
    s: DeployState,
    result: Result<(), String>,
    then: DeployPhase,
    kind: DeployErrorKind,
) -> DeployState {
    match result {
        Ok(_) => advanced(s, then),
        Err(message) => failed(s, kind, message@),
    }
}

/// The state after `event`.  An event that the phase does not wait for
/// changes nothing; a state that has ended never changes.
pub open spec fn next_state(s: DeployState, event: DeployEvent) -> DeployState {
    match (s.phase, event) {
        (DeployPhase::ResolvingVersion, DeployEvent::VersionCommandRan { success, output }) => {
            if success && valid_utf8(output@) {
                DeployState {
                    phase: DeployPhase::LaunchingWorker,
                    version: sanitized(output@),
                    ..s
                }
            } else {
                failed(s, DeployErrorKind::VersionResolution, "Error getting git sha"@)
            }
        },
        (DeployPhase::LaunchingWorker, DeployEvent::WorkerLaunched(Ok(response))) => {
            match response.log {
                Some(run_slug) => DeployState {
                    phase: DeployPhase::AwaitingWorker,
                    worker_slug: response.build@,
                    run_slug: run_slug@,
                    ..s
                },
                None => DeployState {
                    phase: DeployPhase::FetchingWorker,
                    worker_slug: response.build@,
                    ..s
                },
            }
        },
        (DeployPhase::LaunchingWorker, DeployEvent::WorkerLaunched(Err(message))) => failed(
            s,
            DeployErrorKind::Provisioning,
            message@,
        ),
        (DeployPhase::AwaitingWorker, DeployEvent::JobFinished(outcome)) => after_job(
            s,
            outcome,
            DeployPhase::FetchingWorker,
            "There was an error launching worker."@,
        ),
        (DeployPhase::FetchingWorker, DeployEvent::WorkerFetched(Ok(worker))) => DeployState {
            phase: DeployPhase::WritingKey,
            key_name: worker.ssh_key_name@,
            key: worker.ssh_key@,
            worker_ip: worker.public_ip@,
            ..s
        },
        (DeployPhase::FetchingWorker, DeployEvent::WorkerFetched(Err(message))) => failed(
            s,
            DeployErrorKind::Provisioning,
            message@,
        ),
        (DeployPhase::WritingKey, DeployEvent::KeyWritten(result)) => after_plain_step(
            s,
            result,
            DeployPhase::Packaging,
            DeployErrorKind::Filesystem,
        ),
        (DeployPhase::Packaging, DeployEvent::PackageBuilt(Ok(package))) => DeployState {
            phase: DeployPhase::Connecting,
            package: package@,
            artifacts: true,
            ..s
        },
        (
            DeployPhase::Packaging,
            DeployEvent::PackageBuilt(Err(PackageFailure::Pattern(message))),
        ) => failed(s, DeployErrorKind::PatternCompile, message@),
        (
            DeployPhase::Packaging,
            DeployEvent::PackageBuilt(Err(PackageFailure::Filesystem(message))),
        ) => failed(s, DeployErrorKind::Filesystem, message@),
        (DeployPhase::Connecting, DeployEvent::Connected(result)) => after_plain_step(
            s,
            result,
            DeployPhase::Uploading,
            DeployErrorKind::Network,
        ),
        (DeployPhase::Uploading, DeployEvent::Uploaded(result)) => after_plain_step(
            s,
            result,
            DeployPhase::MakingRemoteDir,
            DeployErrorKind::Upload,
        ),
        (DeployPhase::MakingRemoteDir, DeployEvent::CommandRan(Ok(_))) => advanced(
            s,
            DeployPhase::Unpacking,
        ),
        (DeployPhase::MakingRemoteDir, DeployEvent::CommandRan(Err(message))) => failed(
            s,
            DeployErrorKind::RemoteExecution,
            message@,
        ),
        (DeployPhase::Unpacking, DeployEvent::CommandRan(Ok(_))) => advanced(
            s,
            DeployPhase::Cleaning,
        ),
        (DeployPhase::Unpacking, DeployEvent::CommandRan(Err(message))) => failed(
            s,
            DeployErrorKind::RemoteExecution,
            message@,
        ),
        (DeployPhase::Cleaning, DeployEvent::Cleaned(Ok(_))) => DeployState {
            phase: DeployPhase::Building,
            artifacts: false,
            ..s
        },
        (DeployPhase::Cleaning, DeployEvent::Cleaned(Err(message))) => failed(
            s,
            DeployErrorKind::Filesystem,
            message@,
        ),
        (DeployPhase::Building, DeployEvent::CommandRan(Ok(status))) => {
            if status == 0 {
                advanced(s, DeployPhase::Triggering)
            } else {
                failed(s, DeployErrorKind::RemoteExecution, "Build script failed"@)
            }
        },
        (DeployPhase::Building, DeployEvent::CommandRan(Err(message))) => failed(
            s,
            DeployErrorKind::RemoteExecution,
            message@,
        ),
        (DeployPhase::Triggering, DeployEvent::DeployTriggered(Ok(response))) => DeployState {
            phase: DeployPhase::AwaitingDeploy,
            run_slug: response.log@,
            ..s
        },
        (DeployPhase::Triggering, DeployEvent::DeployTriggered(Err(message))) => failed(
            s,
            DeployErrorKind::TriggerDeploy,
            message@,
        ),
        (DeployPhase::AwaitingDeploy, DeployEvent::JobFinished(outcome)) => after_job(
            s,
            outcome,
            DeployPhase::Succeeded,
            "There was an error deploying service."@,
        ),
        _ => s,
    }
}

/// The local package that is still on disk, if one is.
pub open spec fn leftover_of(s: DeployState) -> Option<Seq<char>> {
    if s.artifacts {
        Some(s.package)
    } else {
        None
    }
}

/// The action that a state asks for.
pub open spec fn pending_action(s: DeployState) -> DeployActionView {
    match s.phase {
        DeployPhase::ResolvingVersion => DeployActionView::ResolveVersion,
        DeployPhase::LaunchingWorker => DeployActionView::LaunchWorker {
            service_slug: s.service_slug,
            version: s.version,
        },
        DeployPhase::AwaitingWorker => DeployActionView::AwaitJob { run_slug: s.run_slug },
        DeployPhase::FetchingWorker => DeployActionView::FetchWorker {
            worker_slug: s.worker_slug,
        },
        DeployPhase::WritingKey => DeployActionView::WriteKey {
            path: key_path_of(s.key_name),
            contents: s.key,
        },
        DeployPhase::Packaging => DeployActionView::BuildPackage,
        DeployPhase::Connecting => DeployActionView::Connect {
            address: worker_address_of(s.worker_ip),
            user: BUILD_WORKER_USER@,
            key_path: key_path_of(s.key_name),
        },
        DeployPhase::Uploading => DeployActionView::Upload {
            local_path: s.package,
            remote_path: remote_package_path_of(s.package),
            mode: PACKAGE_MODE,
        },
        DeployPhase::MakingRemoteDir => DeployActionView::Execute {
            command: make_deployment_dir_command_text(),
        },
        DeployPhase::Unpacking => DeployActionView::Execute {
            command: unpack_command_of(s.package),
        },
        DeployPhase::Cleaning => DeployActionView::RemoveLocal {
            package: s.package,
            staging_dir: BUILD_LOCATION@,
        },
        DeployPhase::Building => DeployActionView::Execute {
            command: build_command_of(s.version, s.build_args),
        },
        DeployPhase::Triggering => DeployActionView::TriggerDeploy {
            service_slug: s.service_slug,
            version: s.version,
        },
        DeployPhase::AwaitingDeploy => DeployActionView::AwaitJob { run_slug: s.run_slug },
        DeployPhase::Succeeded => DeployActionView::Succeed,
        DeployPhase::Failed(kind) => DeployActionView::Fail {
            kind,
            message: s.failure,
            leftover_package: leftover_of(s),
        },
    }
}

/// The state after the events `events`, taken in order.
pub open spec fn run(s: DeployState, events: Seq<DeployEvent>) -> DeployState
    decreases events.len(),
{
    if events.len() == 0 {
        s
    } else {
        next_state(run(s, events.drop_last()), events.last())
    }
}


/// Whether a deployment in `phase` has ended.
pub open spec fn has_ended(phase: DeployPhase) -> bool {
    phase is Succeeded || phase is Failed
}

/// The place of a phase in the order of the steps.  Both ends share the
/// last place.
pub open spec fn rank(phase: DeployPhase) -> nat {
    match phase {
        DeployPhase::ResolvingVersion => 0,
        DeployPhase::LaunchingWorker => 1,
        DeployPhase::AwaitingWorker => 2,
        DeployPhase::FetchingWorker => 3,
        DeployPhase::WritingKey => 4,
        DeployPhase::Packaging => 5,
        DeployPhase::Connecting => 6,
        DeployPhase::Uploading => 7,
        DeployPhase::MakingRemoteDir => 8,
        DeployPhase::Unpacking => 9,
        DeployPhase::Cleaning => 10,
        DeployPhase::Building => 11,
        DeployPhase::Triggering => 12,
        DeployPhase::AwaitingDeploy => 13,
        DeployPhase::Succeeded => 14,
        DeployPhase::Failed(_) => 14,
    }
}

/// What holds of the local artifacts in every state that a deployment can
/// reach: they are on disk only between packaging and cleaning.
pub open spec fn artifacts_accounted(s: DeployState) -> bool {
    &&& rank(s.phase) <= 5 ==> !s.artifacts
    &&& 6 <= rank(s.phase) <= 10 ==> s.artifacts
    &&& 11 <= rank(s.phase) <= 13 ==> !s.artifacts
    &&& s.phase is Succeeded ==> !s.artifacts
}

/// A deployment that has ended stays as it is, whatever is reported.
pub proof fn lemma_ended_stays(s: DeployState, events: Seq<DeployEvent>)
    requires
        has_ended(s.phase),
    ensures
        run(s, events) == s,
    decreases events.len(),
{
    if events.len() > 0 {
        lemma_ended_stays(s, events.drop_last());
    }
}

/// Fail fast: once an event has made the deployment fail, every later
/// state is that failed state, and the only action ever asked for again is
/// to stop with that failure.
pub proof fn lemma_failure_is_final(s: DeployState, event: DeployEvent, events: Seq<DeployEvent>)
    requires
        next_state(s, event).phase is Failed,
    ensures
        run(next_state(s, event), events) == next_state(s, event),
        pending_action(run(next_state(s, event), events)) is Fail,
{
    lemma_ended_stays(next_state(s, event), events);
}

/// A build that ends with a non-zero exit status fails the deployment, and
/// the deploy request is never asked for afterwards, whatever is reported.
pub proof fn lemma_failed_build_never_triggers(
    s: DeployState,
    status: i32,
    events: Seq<DeployEvent>,
)
    requires
        s.phase == DeployPhase::Building,
        status != 0,
    ensures
        run(next_state(s, DeployEvent::CommandRan(Ok(status))), events).phase
            == DeployPhase::Failed(DeployErrorKind::RemoteExecution),
        !(pending_action(run(next_state(s, DeployEvent::CommandRan(Ok(status))), events))
            is TriggerDeploy),
{
    lemma_failure_is_final(s, DeployEvent::CommandRan(Ok(status)), events);
}

/// The deploy request becomes due in one way only: the build command ended
/// with exit status zero.
pub proof fn lemma_trigger_follows_clean_build(s: DeployState, event: DeployEvent)
    requires
        next_state(s, event).phase == DeployPhase::Triggering,
        s.phase != DeployPhase::Triggering,
    ensures
        s.phase == DeployPhase::Building,
        event == DeployEvent::CommandRan(Ok(0)),
{
}

/// The steps come in order: an event leaves the phase as it is, ends the
/// deployment, or moves it to the next step (from the launch of the worker
/// also straight to fetching its details, when there is no job to wait for).
pub proof fn lemma_steps_in_order(s: DeployState, event: DeployEvent)
    ensures
        ({
            let next = next_state(s, event).phase;
            ||| next == s.phase
            ||| next is Failed
            ||| rank(next) == rank(s.phase) + 1
            ||| (s.phase == DeployPhase::LaunchingWorker && next
                == DeployPhase::FetchingWorker)
        }),
        has_ended(s.phase) ==> next_state(s, event) == s,
{
}

/// What is deployed does not change on the way: no event changes the
/// service or the build arguments, and once the version is resolved, no
/// event changes the version.  So the deploy request carries the version
/// that the build worker was launched with.
pub proof fn lemma_version_is_fixed(s: DeployState, event: DeployEvent)
    ensures
        next_state(s, event).service_slug == s.service_slug,
        next_state(s, event).build_args == s.build_args,
        s.phase != DeployPhase::ResolvingVersion ==> next_state(s, event).version == s.version,
{
}

/// One event keeps the account of the local artifacts.
pub proof fn lemma_step_accounts_artifacts(s: DeployState, event: DeployEvent)
    requires
        artifacts_accounted(s),
    ensures
        artifacts_accounted(next_state(s, event)),
{
}

/// However a deployment runs: when it has succeeded, the local package and
/// staging directory are gone; when it has failed, the final action names
/// the package to remove exactly if they are still on disk.
pub proof fn lemma_no_artifacts_left(
    service_slug: Seq<char>,
    build_args: Seq<Seq<char>>,
    events: Seq<DeployEvent>,
)
    ensures
        artifacts_accounted(run(initial_state(service_slug, build_args), events)),
        run(initial_state(service_slug, build_args), events).phase is Succeeded ==> !run(
            initial_state(service_slug, build_args),
            events,
        ).artifacts,
        run(initial_state(service_slug, build_args), events).phase is Failed ==> (pending_action(
            run(initial_state(service_slug, build_args), events),
        )->Fail_leftover_package is Some <==> run(
            initial_state(service_slug, build_args),
            events,
        ).artifacts),
    decreases events.len(),
{
    if events.len() > 0 {
        lemma_no_artifacts_left(service_slug, build_args, events.drop_last());
        lemma_step_accounts_artifacts(
            run(initial_state(service_slug, build_args), events.drop_last()),
            events.last(),
        );
    }
}

/// One deployment of one service.
pub struct Deployment {
    phase: DeployPhase,
    service_slug: String,
    build_args: Vec<String>,
    version: String,
    worker_slug: String,
    run_slug: String,
    key_name: String,
    key: String,
    worker_ip: String,
    package: String,
    artifacts: bool,
    failure: String,
}

impl View for Deployment {
    type V = DeployState;

    closed spec fn view(&self) -> DeployState {
        DeployState {
            phase: self.phase,
            service_slug: self.service_slug@,
            build_args: self.build_args.deep_view(),
            version: self.version@,
            worker_slug: self.worker_slug@,
            run_slug: self.run_slug@,
            key_name: self.key_name@,
            key: self.key@,
            worker_ip: self.worker_ip@,
            package: self.package@,
            artifacts: self.artifacts,
            failure: self.failure@,
        }
    }
}

impl Deployment {
    /// A deployment of `service` that has not begun.  No build arguments is
    /// the same as an empty list of them.
    pub fn start(service: &Service, build_args: Option<Vec<String>>) -> (r: Deployment)
        ensures
            r@ == initial_state(
                service.slug@,
                match build_args {
                    Some(args) => args.deep_view(),
                    None => Seq::empty(),
                },
            ),
    {
        let args: Vec<String> = match build_args {
            Some(args) => args,
            None => Vec::new(),
        };
        proof {
            if build_args is None {
                assert(args.deep_view() =~= Seq::<Seq<char>>::empty());
            }
        }
        Deployment {
            phase: DeployPhase::ResolvingVersion,
            service_slug: service.slug.clone(),
            build_args: args,
            version: String::new(),
            worker_slug: String::new(),
            run_slug: String::new(),
            key_name: String::new(),
            key: String::new(),
            worker_ip: String::new(),
            package: String::new(),
            artifacts: false,
            failure: String::new(),
        }
    }

    /// Where the deployment stands.
    pub fn phase(&self) -> (r: DeployPhase)
        ensures
            r == self@.phase,
    {
        self.phase
    }

    /// Whether the deployment has ended, well or badly.
    pub fn is_finished(&self) -> (r: bool)
        ensures
            r == (self@.phase is Succeeded || self@.phase is Failed),
    {
        match self.phase {
            DeployPhase::Succeeded => true,
            DeployPhase::Failed(_) => true,
            _ => false,
        }
    }

    /// The version that is being deployed; empty until it is resolved.
    pub fn version(&self) -> (r: &String)
        ensures
            r@ == self@.version,
    {
        &self.version
    }

    /// The file that holds the worker's private key.
    fn key_path(&self) -> (r: String)
        ensures
            r@ == key_path_of(self@.key_name),
    {
        concat2(self.key_name.as_str(), ".pem")
    }

    /// The action that is due.
    pub fn next_action(&self) -> (r: DeployAction)
        ensures
            r@ == pending_action(self@),
    {
        match self.phase {
            DeployPhase::ResolvingVersion => DeployAction::ResolveVersion,
            DeployPhase::LaunchingWorker => DeployAction::LaunchWorker {
                service_slug: self.service_slug.clone(),
                request: LaunchWorkerRequest { version: self.version.clone() },
            },
            DeployPhase::AwaitingWorker => DeployAction::AwaitJob {
                run_slug: self.run_slug.clone(),
            },
            DeployPhase::FetchingWorker => DeployAction::FetchWorker {
                worker_slug: self.worker_slug.clone(),
            },
            DeployPhase::WritingKey => DeployAction::WriteKey {
                path: self.key_path(),
                contents: self.key.clone(),
            },
            DeployPhase::Packaging => DeployAction::BuildPackage,
            DeployPhase::Connecting => DeployAction::Connect {
                address: worker_address(self.worker_ip.as_str()),
                user: BUILD_WORKER_USER.to_owned(),
                key_path: self.key_path(),
            },
            DeployPhase::Uploading => DeployAction::Upload {
                local_path: self.package.clone(),
                remote_path: remote_package_path(self.package.as_str()),
                mode: PACKAGE_MODE,
            },
            DeployPhase::MakingRemoteDir => DeployAction::Execute {
                command: make_deployment_dir_command(),
            },
            DeployPhase::Unpacking => DeployAction::Execute {
                command: unpack_command(self.package.as_str()),
            },
            DeployPhase::Cleaning => DeployAction::RemoveLocal {
                package: self.package.clone(),
                staging_dir: BUILD_LOCATION.to_owned(),
            },
            DeployPhase::Building => DeployAction::Execute {
                command: build_command(self.version.as_str(), &self.build_args),
            },
            DeployPhase::Triggering => DeployAction::TriggerDeploy {
                service_slug: self.service_slug.clone(),
                request: ServiceDeployRequest { version: self.version.clone() },
            },
            DeployPhase::AwaitingDeploy => DeployAction::AwaitJob {
                run_slug: self.run_slug.clone(),
            },
            DeployPhase::Succeeded => DeployAction::Finish {
                outcome: Ok(()),
                leftover_package: None,
            },
            DeployPhase::Failed(kind) => DeployAction::Finish {
                outcome: Err(DeployError { kind, message: self.failure.clone() }),
                leftover_package: if self.artifacts {
                    Some(self.package.clone())
                } else {
                    None
                },
            },
        }
    }

    /// Ends the deployment for the reason `kind`.
    fn fail(&mut self, kind: DeployErrorKind, message: String)
        ensures
            final(self)@ == failed(old(self)@, kind, message@),
    {
        self.phase = DeployPhase::Failed(kind);
        self.failure = message;
    }

    /// Takes in the end of a wait for a job.
    fn finish_job(&mut self, outcome: PollOutcome, then: DeployPhase, message: &str)
        ensures
            final(self)@ == after_job(old(self)@, outcome, then, message@),
    {
        match outcome {
            PollOutcome::Succeeded => {
                self.phase = then;
            },
            PollOutcome::TimedOut => {
                self.fail(DeployErrorKind::PollTimeout, message.to_owned());
            },
            _ => {
                self.fail(DeployErrorKind::PollFailure, message.to_owned());
            },
        }
    }

    /// Takes in the end of a step that carries no value.
    fn finish_plain_step(
        &mut self,
        result: Result<(), String>,
        then: DeployPhase,
        kind: DeployErrorKind,
    )
        ensures
            final(self)@ == after_plain_step(old(self)@, result, then, kind),
    {
        match result {
            Ok(_) => {
                self.phase = then;
            },
            Err(message) => {
                self.fail(kind, message);
            },
        }
    }

    /// Takes in what came of the last action.
    pub fn step(&mut self, event: DeployEvent)
        ensures
            final(self)@ == next_state(old(self)@, event),
    {
        match self.phase {
            DeployPhase::ResolvingVersion => {
                if let DeployEvent::VersionCommandRan { success, output } = event {
                    match resolve_version(success, output) {
                        Some(version) => {
                            self.version = version;
                            self.phase = DeployPhase::LaunchingWorker;
                        },
                        None => {
                            self.fail(
                                DeployErrorKind::VersionResolution,
                                "Error getting git sha".to_owned(),
                            );
                        },
                    }
                }
            },
            DeployPhase::LaunchingWorker => {
                if let DeployEvent::WorkerLaunched(result) = event {
                    match result {
                        Ok(response) => {
                            self.worker_slug = response.build;
                            match response.log {
                                Some(run_slug) => {
                                    self.run_slug = run_slug;
                                    self.phase = DeployPhase::AwaitingWorker;
                                },
                                None => {
                                    self.phase = DeployPhase::FetchingWorker;
                                },
                            }
                        },
                        Err(message) => {
                            self.fail(DeployErrorKind::Provisioning, message);
                        },
                    }
                }
            },
            DeployPhase::AwaitingWorker => {
                if let DeployEvent::JobFinished(outcome) = event {
                    self.finish_job(
                        outcome,
                        DeployPhase::FetchingWorker,
                        "There was an error launching worker.",
                    );
                }
            },
            DeployPhase::FetchingWorker => {
                if let DeployEvent::WorkerFetched(result) = event {
                    match result {
                        Ok(worker) => {
                            self.key_name = worker.ssh_key_name;
                            self.key = worker.ssh_key;
                            self.worker_ip = worker.public_ip;
                            self.phase = DeployPhase::WritingKey;
                        },
                        Err(message) => {
                            self.fail(DeployErrorKind::Provisioning, message);
                        },
                    }
                }
            },
            DeployPhase::WritingKey => {
                if let DeployEvent::KeyWritten(result) = event {
                    self.finish_plain_step(
                        result,
                        DeployPhase::Packaging,
                        DeployErrorKind::Filesystem,
                    );
                }
            },
            DeployPhase::Packaging => {
                if let DeployEvent::PackageBuilt(result) = event {
                    match result {
                        Ok(package) => {
                            self.package = package;
                            self.artifacts = true;
                            self.phase = DeployPhase::Connecting;
                        },
                        Err(PackageFailure::Pattern(message)) => {
                            self.fail(DeployErrorKind::PatternCompile, message);
                        },
                        Err(PackageFailure::Filesystem(message)) => {
                            self.fail(DeployErrorKind::Filesystem, message);
                        },
                    }
                }
            },
            DeployPhase::Connecting => {
                if let DeployEvent::Connected(result) = event {
                    self.finish_plain_step(
                        result,
                        DeployPhase::Uploading,
                        DeployErrorKind::Network,
                    );
                }
            },
            DeployPhase::Uploading => {
                if let DeployEvent::Uploaded(result) = event {
                    self.finish_plain_step(
                        result,
                        DeployPhase::MakingRemoteDir,
                        DeployErrorKind::Upload,
                    );
                }
            },
            DeployPhase::MakingRemoteDir => {
                if let DeployEvent::CommandRan(result) = event {
                    match result {
                        Ok(_) => {
                            self.phase = DeployPhase::Unpacking;
                        },
                        Err(message) => {
                            self.fail(DeployErrorKind::RemoteExecution, message);
                        },
                    }
                }
            },
            DeployPhase::Unpacking => {
                if let DeployEvent::CommandRan(result) = event {
                    match result {
                        Ok(_) => {
                            self.phase = DeployPhase::Cleaning;
                        },
                        Err(message) => {
                            self.fail(DeployErrorKind::RemoteExecution, message);
                        },
                    }
                }
            },
            DeployPhase::Cleaning => {
                if let DeployEvent::Cleaned(result) = event {
                    match result {
                        Ok(_) => {
                            self.artifacts = false;
                            self.phase = DeployPhase::Building;
                        },
                        Err(message) => {
                            self.fail(DeployErrorKind::Filesystem, message);
                        },
                    }
                }
            },
            DeployPhase::Building => {
                if let DeployEvent::CommandRan(result) = event {
                    match result {
                        Ok(status) => {
                            if status == 0 {
                                self.phase = DeployPhase::Triggering;
                            } else {
                                self.fail(
                                    DeployErrorKind::RemoteExecution,
                                    "Build script failed".to_owned(),
                                );
                            }
                        },
                        Err(message) => {
                            self.fail(DeployErrorKind::RemoteExecution, message);
                        },
                    }
                }
            },
            DeployPhase::Triggering => {
                if let DeployEvent::DeployTriggered(result) = event {
                    match result {
                        Ok(response) => {
                            self.run_slug = response.log;
                            self.phase = DeployPhase::AwaitingDeploy;
                        },
                        Err(message) => {
                            self.fail(DeployErrorKind::TriggerDeploy, message);
                        },
                    }
                }
            },
            DeployPhase::AwaitingDeploy => {
                if let DeployEvent::JobFinished(outcome) = event {
                    self.finish_job(
                        outcome,
                        DeployPhase::Succeeded,
                        "There was an error deploying service.",
                    );
                }
            },
            DeployPhase::Succeeded => {},
            DeployPhase::Failed(_) => {},
        }
    }
}

} // verus!
