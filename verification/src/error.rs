//! The errors that a node reports, and how several of them become one.
use crate::evidence::{conservative_shutdown_mutation, ShutdownEvidence};
use crate::log::LogAnchor;
use crate::status::{HaShutdownPhase, IngressDisposition, MutationCertainty, TaskDisposition};
use crate::text::{decimal_text, joined, joined3};
use crate::token::StartupCancellationToken;
use vstd::prelude::*;

verus! {

/// Why startup did not complete.
#[derive(Debug, PartialEq, Eq)]
pub enum HaStartupError {
    Source(String),
    Cancelled(StartupCancellationToken),
}

impl Clone for HaStartupError {
    fn clone(&self) -> (copy: Self)
        ensures
            copy == *self,
    {
        match self {
            HaStartupError::Source(message) => HaStartupError::Source(message.clone()),
            HaStartupError::Cancelled(token) => HaStartupError::Cancelled(*token),
        }
    }
}

impl HaStartupError {
    /// A source failure with this message.
    pub open spec fn is_source(self, message: Seq<char>) -> bool {
        self matches HaStartupError::Source(text) && text@ == message
    }

    pub open spec fn spec_message(self) -> Seq<char> {
        match self {
            HaStartupError::Source(message) => message@,
            HaStartupError::Cancelled(_) => "startup cancelled"@,
        }
    }

    /// What the error says to a reader.
    pub fn message(&self) -> (message: String)
        ensures
            message@ == self.spec_message(),
    {
        match self {
            HaStartupError::Source(message) => message.clone(),
            HaStartupError::Cancelled(_) => "startup cancelled".to_owned(),
        }
    }
}

/// A startup failure with this message.
pub fn fail(message: &str) -> (error: HaStartupError)
    ensures
        error.is_source(message@),
{
    HaStartupError::Source(message.to_owned())
}

/// What class of failure the node runtime reported.
#[derive(Clone, Copy, Debug, PartialEq, Eq, Structural)]
pub enum NodeErrorKind {
    /// Startup was cancelled by this token.
    StartupCancelled(StartupCancellationToken),
    Unavailable,
    Contention,
    PreconditionFailed,
    Fatal,
    Other,
}

/// A failure of the node runtime, with its rendered message.
#[derive(Debug)]
pub struct NodeError {
    pub kind: NodeErrorKind,
    pub retryable: bool,
    pub message: String,
}

impl NodeError {
    /// A startup cancellation keeps its token; everything else keeps its message.
    pub open spec fn spec_startup_error(self) -> HaStartupError {
        match self.kind {
            NodeErrorKind::StartupCancelled(token) => HaStartupError::Cancelled(token),
            _ => HaStartupError::Source(self.message),
        }
    }

    /// The member it came from could not be reached or lost a race: trying
    /// again may succeed.
    pub open spec fn spec_is_transient(self) -> bool {
        self.kind == NodeErrorKind::Unavailable || self.kind == NodeErrorKind::Contention
    }

    /// The member it came from could not be reached or lost a race: trying
    /// again may succeed.
    pub fn is_transient(&self) -> (transient: bool)
        ensures
            transient == self.spec_is_transient(),
    {
        self.kind == NodeErrorKind::Unavailable || self.kind == NodeErrorKind::Contention
    }
}

/// The startup failure that a node failure amounts to.
pub fn startup_error(error: NodeError) -> (startup: HaStartupError)
    ensures
        startup == error.spec_startup_error(),
{
    match error.kind {
        NodeErrorKind::StartupCancelled(token) => HaStartupError::Cancelled(token),
        _ => HaStartupError::Source(error.message),
    }
}

/// Why a certified tail could not be had.
#[derive(Debug, PartialEq, Eq)]
pub enum HaCertifiedTailError {
    Unavailable(String),
    RebaseRequired(LogAnchor),
    Rejected(String),
}

impl Clone for HaCertifiedTailError {
    fn clone(&self) -> (copy: Self)
        ensures
            copy == *self,
    {
        match self {
            HaCertifiedTailError::Unavailable(message) => HaCertifiedTailError::Unavailable(
                message.clone(),
            ),
            HaCertifiedTailError::RebaseRequired(anchor) => HaCertifiedTailError::RebaseRequired(
                *anchor,
            ),
            HaCertifiedTailError::Rejected(message) => HaCertifiedTailError::Rejected(
                message.clone(),
            ),
        }
    }
}

impl HaCertifiedTailError {
    pub open spec fn spec_message(self) -> Seq<char> {
        match self {
            HaCertifiedTailError::Unavailable(message) => "source unavailable: "@ + message@,
            HaCertifiedTailError::RebaseRequired(anchor) => {
                "source requires a newer checkpoint at index "@ + crate::text::decimal(
                    anchor.index as nat,
                ) + " with hash "@ + anchor.hash.spec_hex()
            },
            HaCertifiedTailError::Rejected(message) => "source rejected the request: "@ + message@,
        }
    }

    /// What the error says to a reader.
    pub fn message(&self) -> (message: String)
        ensures
            message@ == self.spec_message(),
    {
        match self {
            HaCertifiedTailError::Unavailable(message) => joined(
                "source unavailable: ",
                message.as_str(),
            ),
            HaCertifiedTailError::RebaseRequired(anchor) => {
                let mut text = joined3(
                    "source requires a newer checkpoint at index ",
                    decimal_text(anchor.index).as_str(),
                    " with hash ",
                );
                text.append(anchor.hash.to_hex().as_str());
                text
            },
            HaCertifiedTailError::Rejected(message) => joined(
                "source rejected the request: ",
                message.as_str(),
            ),
        }
    }
}

/// The code of a failure, and whether trying again may succeed.
#[derive(Debug)]
pub struct ErrorClassification {
    pub code: String,
    pub retryable: bool,
}

impl Clone for ErrorClassification {
    fn clone(&self) -> (copy: Self)
        ensures
            copy == *self,
    {
        ErrorClassification { code: self.code.clone(), retryable: self.retryable }
    }
}

/// What kind of failure an owner's source error is.
#[derive(Clone, Copy, Debug, PartialEq, Eq, Structural)]
pub enum SourceErrorKind {
    /// A consensus request whose outcome no recorder could report.
    UnknownConsensusOutcome,
    /// The owner was already closed.
    Closed,
    Other,
}

/// A failure of the node owner, with its rendered message.
#[derive(Debug)]
pub struct SourceError {
    pub kind: SourceErrorKind,
    pub message: String,
}

impl Clone for SourceError {
    fn clone(&self) -> (copy: Self)
        ensures
            copy == *self,
    {
        SourceError { kind: self.kind, message: self.message.clone() }
    }
}

/// How a background task of the owner ended.
#[derive(Clone, Copy, Debug, PartialEq, Eq, Structural)]
pub enum ShutdownTaskFailure {
    Cancelled,
    Panicked,
}

/// The receipt of a background task that did not end by returning.
#[derive(Clone, Copy, Debug, PartialEq, Eq, Structural)]
pub struct WorkerError {
    pub failure: ShutdownTaskFailure,
}

/// Why a shutdown is incomplete.
#[derive(Debug)]
pub enum HaShutdownCause {
    RecorderOutcomeUnknown,
    Source(SourceError),
    TaskFailure(WorkerError),
}

impl Clone for HaShutdownCause {
    fn clone(&self) -> (copy: Self)
        ensures
            copy == *self,
    {
        match self {
            HaShutdownCause::RecorderOutcomeUnknown => HaShutdownCause::RecorderOutcomeUnknown,
            HaShutdownCause::Source(error) => HaShutdownCause::Source(error.clone()),
            HaShutdownCause::TaskFailure(error) => HaShutdownCause::TaskFailure(*error),
        }
    }
}

impl HaShutdownCause {
    pub open spec fn spec_message(self) -> Seq<char> {
        match self {
            HaShutdownCause::RecorderOutcomeUnknown => "recorder outcome is unknown"@,
            HaShutdownCause::Source(error) => error.message@,
            HaShutdownCause::TaskFailure(error) => match error.failure {
                ShutdownTaskFailure::Cancelled => "task failure: "@ + "Cancelled"@,
                ShutdownTaskFailure::Panicked => "task failure: "@ + "Panicked"@,
            },
        }
    }

    /// What the cause says to a reader.
    pub fn message(&self) -> (message: String)
        ensures
            message@ == self.spec_message(),
    {
        match self {
            HaShutdownCause::RecorderOutcomeUnknown => "recorder outcome is unknown".to_owned(),
            HaShutdownCause::Source(error) => error.message.clone(),
            HaShutdownCause::TaskFailure(error) => match error.failure {
                ShutdownTaskFailure::Cancelled => joined("task failure: ", "Cancelled"),
                ShutdownTaskFailure::Panicked => joined("task failure: ", "Panicked"),
            },
        }
    }
}

/// Why a node failed, or did not stop cleanly.
#[derive(Debug)]
pub enum HaNodeError {
    Startup(HaStartupError),
    CertifiedTail(HaCertifiedTailError),
    RecorderServer(String),
    ServiceServer(String),
    Supervisor(String),
    WorkerFailure(ErrorClassification),
    StartupIoDeadlineExceeded { stage: String },
    ShutdownDeadlineExceeded {
        phase: HaShutdownPhase,
        ingress: IngressDisposition,
        tasks: TaskDisposition,
        mutation: MutationCertainty,
    },
    ShutdownIncomplete {
        phase: HaShutdownPhase,
        cause: HaShutdownCause,
        ingress: IngressDisposition,
        tasks: TaskDisposition,
        mutation: MutationCertainty,
    },
    Cleanup { primary: Box<HaNodeError>, cleanup: Box<HaNodeError> },
    Cancelled,
}

impl Clone for HaNodeError {
    fn clone(&self) -> (copy: Self)
        ensures
            copy == *self,
        decreases self,
    {
        match self {
            HaNodeError::Startup(error) => HaNodeError::Startup(error.clone()),
            HaNodeError::CertifiedTail(error) => HaNodeError::CertifiedTail(error.clone()),
            HaNodeError::RecorderServer(message) => HaNodeError::RecorderServer(message.clone()),
            HaNodeError::ServiceServer(message) => HaNodeError::ServiceServer(message.clone()),
            HaNodeError::Supervisor(message) => HaNodeError::Supervisor(message.clone()),
            HaNodeError::WorkerFailure(classification) => HaNodeError::WorkerFailure(
                classification.clone(),
            ),
            HaNodeError::StartupIoDeadlineExceeded { stage } => {
                HaNodeError::StartupIoDeadlineExceeded { stage: stage.clone() }
            },
            HaNodeError::ShutdownDeadlineExceeded { phase, ingress, tasks, mutation } => {
                HaNodeError::ShutdownDeadlineExceeded {
                    phase: *phase,
                    ingress: *ingress,
                    tasks: *tasks,
                    mutation: *mutation,
                }
            },
            HaNodeError::ShutdownIncomplete { phase, cause, ingress, tasks, mutation } => {
                HaNodeError::ShutdownIncomplete {
                    phase: *phase,
                    cause: cause.clone(),
                    ingress: *ingress,
                    tasks: *tasks,
                    mutation: *mutation,
                }
            },
            HaNodeError::Cleanup { primary, cleanup } => HaNodeError::Cleanup {
                primary: Box::new((&**primary).clone()),
                cleanup: Box::new((&**cleanup).clone()),
            },
            HaNodeError::Cancelled => HaNodeError::Cancelled,
        }
    }
}

impl HaNodeError {
    /// A failure of the recorder server with this message.
    pub open spec fn is_recorder_server(self, message: Seq<char>) -> bool {
        self matches HaNodeError::RecorderServer(text) && text@ == message
    }

    /// A failure of the service server with this message.
    pub open spec fn is_service_server(self, message: Seq<char>) -> bool {
        self matches HaNodeError::ServiceServer(text) && text@ == message
    }

    /// A failure of a supervisor with this message.
    pub open spec fn is_supervisor(self, message: Seq<char>) -> bool {
        self matches HaNodeError::Supervisor(text) && text@ == message
    }

    /// A startup failure with this message.
    pub open spec fn is_startup(self, message: Seq<char>) -> bool {
        self matches HaNodeError::Startup(error) && error.is_source(message)
    }

    /// `cleanup` went wrong after `primary` had.
    pub open spec fn with_cleanup(self, cleanup: HaNodeError) -> HaNodeError {
        HaNodeError::Cleanup { primary: Box::new(self), cleanup: Box::new(cleanup) }
    }

    /// The failure that came first.
    pub open spec fn root(self) -> HaNodeError
        decreases self,
    {
        match self {
            HaNodeError::Cleanup { primary, cleanup } => primary.root(),
            _ => self,
        }
    }

    /// The failures that are gathered here, in the order in which they came.
    pub open spec fn leaves(self) -> Seq<HaNodeError>
        decreases self,
    {
        match self {
            HaNodeError::Cleanup { primary, cleanup } => primary.leaves() + cleanup.leaves(),
            _ => seq![self],
        }
    }

    pub open spec fn spec_message(self) -> Seq<char>
        decreases self,
    {
        match self {
            HaNodeError::Startup(error) => "HA startup failed: "@ + error.spec_message(),
            HaNodeError::CertifiedTail(error) => "certified tail failed: "@ + error.spec_message(),
            HaNodeError::RecorderServer(error) => "recorder server failed: "@ + error@,
            HaNodeError::ServiceServer(error) => "service server failed: "@ + error@,
            HaNodeError::Supervisor(error) => "HA supervisor failed: "@ + error@,
            HaNodeError::WorkerFailure(classification) => "HA worker failed with code "@
                + classification.code@,
            HaNodeError::StartupIoDeadlineExceeded { stage } => {
                "HA startup I/O exceeded the shutdown deadline during "@ + stage@
            },
            HaNodeError::ShutdownDeadlineExceeded { phase, .. } => {
                "HA shutdown deadline exceeded during "@ + phase.spec_name()
            },
            HaNodeError::ShutdownIncomplete { phase, cause, .. } => {
                "HA shutdown incomplete during "@ + phase.spec_name() + ": "@
                    + cause.spec_message()
            },
            HaNodeError::Cleanup { primary, cleanup } => {
                primary.spec_message() + "; cleanup also failed: "@ + cleanup.spec_message()
            },
            HaNodeError::Cancelled => "HA node startup was cancelled"@,
        }
    }

    /// What the error says to a reader.
    pub fn message(&self) -> (message: String)
        ensures
            message@ == self.spec_message(),
        decreases self,
    {
        match self {
            HaNodeError::Startup(error) => joined("HA startup failed: ", error.message().as_str()),
            HaNodeError::CertifiedTail(error) => joined(
                "certified tail failed: ",
                error.message().as_str(),
            ),
            HaNodeError::RecorderServer(error) => joined("recorder server failed: ", error.as_str()),
            HaNodeError::ServiceServer(error) => joined("service server failed: ", error.as_str()),
            HaNodeError::Supervisor(error) => joined("HA supervisor failed: ", error.as_str()),
            HaNodeError::WorkerFailure(classification) => joined(
                "HA worker failed with code ",
                classification.code.as_str(),
            ),
            HaNodeError::StartupIoDeadlineExceeded { stage } => joined(
                "HA startup I/O exceeded the shutdown deadline during ",
                stage.as_str(),
            ),
            HaNodeError::ShutdownDeadlineExceeded { phase, .. } => joined(
                "HA shutdown deadline exceeded during ",
                phase.name(),
            ),
            HaNodeError::ShutdownIncomplete { phase, cause, .. } => {
                let mut text = joined3("HA shutdown incomplete during ", phase.name(), ": ");
                text.append(cause.message().as_str());
                text
            },
            HaNodeError::Cleanup { primary, cleanup } => {
                let mut text = (&**primary).message();
                text.append("; cleanup also failed: ");
                text.append((&**cleanup).message().as_str());
                text
            },
            HaNodeError::Cancelled => "HA node startup was cancelled".to_owned(),
        }
    }
}

/// The error below another one.
#[derive(Debug)]
pub enum ErrorSource<'a> {
    Startup(&'a HaStartupError),
    CertifiedTail(&'a HaCertifiedTailError),
    Shutdown(&'a HaShutdownCause),
    Node(&'a HaNodeError),
    Owner(&'a SourceError),
    Worker(&'a WorkerError),
    /// How the worker's task itself ended.
    Task(&'a ShutdownTaskFailure),
}

impl WorkerError {
    /// The error below this one: how the task itself ended.
    pub fn source(&self) -> (source: Option<ErrorSource<'_>>)
        ensures
            source == Some(ErrorSource::Task(&self.failure)),
    {
        Some(ErrorSource::Task(&self.failure))
    }
}

impl HaShutdownCause {
    /// The error below this one: the owner's own, the receipt of its worker, or
    /// none where the outcome is unknown.
    pub fn source(&self) -> (source: Option<ErrorSource<'_>>)
        ensures
            match self {
                HaShutdownCause::Source(error) => source == Some(ErrorSource::Owner(error)),
                HaShutdownCause::TaskFailure(error) => source == Some(ErrorSource::Worker(error)),
                HaShutdownCause::RecorderOutcomeUnknown => source is None,
            },
    {
        match self {
            HaShutdownCause::Source(error) => Some(ErrorSource::Owner(error)),
            HaShutdownCause::TaskFailure(error) => Some(ErrorSource::Worker(error)),
            HaShutdownCause::RecorderOutcomeUnknown => None,
        }
    }
}

impl HaNodeError {
    /// The error below this one, if there is one. The failure that a cleanup
    /// followed lies below the cleanup.
    pub fn source(&self) -> (source: Option<ErrorSource<'_>>)
        ensures
            match self {
                HaNodeError::Startup(error) => source == Some(ErrorSource::Startup(error)),
                HaNodeError::CertifiedTail(error) => source == Some(
                    ErrorSource::CertifiedTail(error),
                ),
                HaNodeError::ShutdownIncomplete { cause, .. } => source == Some(
                    ErrorSource::Shutdown(cause),
                ),
                HaNodeError::Cleanup { primary, .. } => source == Some(ErrorSource::Node(primary)),
                _ => source is None,
            },
    {
        match self {
            HaNodeError::Startup(error) => Some(ErrorSource::Startup(error)),
            HaNodeError::CertifiedTail(error) => Some(ErrorSource::CertifiedTail(error)),
            HaNodeError::ShutdownIncomplete { cause, .. } => Some(ErrorSource::Shutdown(cause)),
            HaNodeError::Cleanup { primary, .. } => Some(ErrorSource::Node(primary)),
            _ => None,
        }
    }
}

impl From<HaStartupError> for HaNodeError {
    fn from(error: HaStartupError) -> (node: Self) {
        HaNodeError::Startup(error)
    }
}

impl vstd::std_specs::convert::FromSpecImpl<HaStartupError> for HaNodeError {
    open spec fn obeys_from_spec() -> bool {
        true
    }

    open spec fn from_spec(error: HaStartupError) -> HaNodeError {
        HaNodeError::Startup(error)
    }
}

/// A deadline that passed with work outstanding: every mutation may still be
/// in flight, whatever ingress and tasks could be receipted.
#[verifier::allow_in_spec]
pub fn conservative_shutdown_deadline_error(
    phase: HaShutdownPhase,
    evidence: ShutdownEvidence,
) -> (error: HaNodeError)
    returns
        (HaNodeError::ShutdownDeadlineExceeded {
            phase,
            ingress: evidence.ingress,
            tasks: evidence.tasks,
            mutation: conservative_shutdown_mutation(),
        }),
{
    HaNodeError::ShutdownDeadlineExceeded {
        phase,
        ingress: evidence.ingress,
        tasks: evidence.tasks,
        mutation: conservative_shutdown_mutation(),
    }
}

/// The outcome of `cleanup` after `terminal`: the first failure stays primary.
pub open spec fn combined(
    terminal: Option<HaNodeError>,
    cleanup: Result<(), HaNodeError>,
) -> Result<(), HaNodeError> {
    match terminal {
        None => cleanup,
        Some(primary) => match cleanup {
            Ok(_) => Err(primary),
            Err(cleanup) => Err(primary.with_cleanup(cleanup)),
        },
    }
}

/// The outcome of `cleanup` after `terminal`: the first failure stays primary.
pub fn combine_ha_results(
    terminal: Option<HaNodeError>,
    cleanup: Result<(), HaNodeError>,
) -> (result: Result<(), HaNodeError>)
    ensures
        result == combined(terminal, cleanup),
{
    match terminal {
        None => cleanup,
        Some(primary) => match cleanup {
            Ok(()) => Err(primary),
            Err(cleanup) => Err(
                HaNodeError::Cleanup { primary: Box::new(primary), cleanup: Box::new(cleanup) },
            ),
        },
    }
}

/// `primary` with each of `errors` added as a later cleanup failure.
pub open spec fn folded(primary: HaNodeError, errors: Seq<HaNodeError>) -> HaNodeError
    decreases errors.len(),
{
    if errors.len() == 0 {
        primary
    } else {
        folded(primary, errors.drop_last()).with_cleanup(errors.last())
    }
}

/// Success where nothing went wrong, else the first failure with the later
/// ones added.
pub open spec fn combined_all(errors: Seq<HaNodeError>) -> Result<(), HaNodeError> {
    if errors.len() == 0 {
        Ok(())
    } else {
        Err(folded(errors[0], errors.skip(1)))
    }
}

/// Success where nothing went wrong, else the first failure with the later
/// ones added.
pub fn combine_ha_errors(errors: Vec<HaNodeError>) -> (result: Result<(), HaNodeError>)
    ensures
        result == combined_all(errors@),
{
    if errors.len() == 0 {
        return Ok(());
    }
    let ghost all = errors@;
    let mut rest = errors;
    let mut primary = rest.remove(0);
    let ghost first = primary;
    let ghost later = rest@;
    let ghost mut taken: int = 0;
    assert(later =~= all.skip(1));
    while rest.len() > 0
        invariant
            0 <= taken <= later.len(),
            rest@ == later.skip(taken),
            primary == folded(first, later.take(taken)),
        decreases rest.len(),
    {
        let cleanup = rest.remove(0);
        proof {
            assert(later.take(taken + 1).drop_last() =~= later.take(taken));
            assert(later.take(taken + 1).last() == cleanup);
            assert(later.skip(taken).remove(0) =~= later.skip(taken + 1));
            taken = taken + 1;
        }
        primary = HaNodeError::Cleanup { primary: Box::new(primary), cleanup: Box::new(cleanup) };
    }
    assert(later.take(taken) =~= later);
    Err(primary)
}

/// However many failures are gathered, the first stays the root.
pub proof fn law_first_failure_stays_primary(errors: Seq<HaNodeError>)
    requires
        errors.len() > 0,
    ensures
        combined_all(errors) is Err,
        combined_all(errors)->Err_0.root() == errors[0].root(),
{
    lemma_folded_root(errors[0], errors.skip(1));
}

proof fn lemma_folded_root(primary: HaNodeError, errors: Seq<HaNodeError>)
    ensures
        folded(primary, errors).root() == primary.root(),
    decreases errors.len(),
{
    if errors.len() > 0 {
        lemma_folded_root(primary, errors.drop_last());
    }
}

/// The leaves of `errors`, one after the other.
pub open spec fn all_leaves(errors: Seq<HaNodeError>) -> Seq<HaNodeError>
    decreases errors.len(),
{
    if errors.len() == 0 {
        Seq::empty()
    } else {
        all_leaves(errors.drop_last()) + errors.last().leaves()
    }
}

/// No failure is lost and their order is kept.
pub proof fn law_no_failure_is_lost(errors: Seq<HaNodeError>)
    requires
        errors.len() > 0,
    ensures
        combined_all(errors) is Err,
        combined_all(errors)->Err_0.leaves() == all_leaves(errors),
{
    lemma_folded_leaves(errors[0], errors.skip(1));
    assert(seq![errors[0]] + errors.skip(1) =~= errors);
}

proof fn lemma_folded_leaves(primary: HaNodeError, errors: Seq<HaNodeError>)
    ensures
        folded(primary, errors).leaves() == all_leaves(seq![primary] + errors),
    decreases errors.len(),
{
    let whole = seq![primary] + errors;
    if errors.len() == 0 {
        assert(whole.drop_last() =~= Seq::<HaNodeError>::empty());
        assert(all_leaves(whole.drop_last()) =~= Seq::<HaNodeError>::empty());
        assert(all_leaves(whole) =~= primary.leaves());
    } else {
        lemma_folded_leaves(primary, errors.drop_last());
        assert(whole.drop_last() =~= seq![primary] + errors.drop_last());
        assert(whole.last() == errors.last());
    }
}

/// A cleanup outcome never hides the terminal failure that it followed, and a
/// clean cleanup changes nothing.
pub proof fn law_cleanup_never_hides_the_terminal_failure(
    terminal: HaNodeError,
    cleanup: Result<(), HaNodeError>,
)
    ensures
        combined(Some(terminal), cleanup) is Err,
        combined(Some(terminal), cleanup)->Err_0.root() == terminal.root(),
        cleanup is Ok ==> combined(Some(terminal), cleanup) == Err::<(), HaNodeError>(terminal),
        cleanup matches Err(error) ==> combined(Some(terminal), cleanup)->Err_0.leaves()
            == terminal.leaves() + error.leaves(),
        combined(None, cleanup) == cleanup,
{
}

/// A deadline never understates what may still be mutating.
pub proof fn law_deadlines_never_understate_mutation(
    phase: HaShutdownPhase,
    evidence: ShutdownEvidence,
)
    ensures
        conservative_shutdown_deadline_error(phase, evidence) matches
            HaNodeError::ShutdownDeadlineExceeded { mutation, .. } && mutation
            == (MutationCertainty::Uncertain {
            local_io: true,
            recorder_rpc: true,
            activation: true,
        }),
{
}

/// A deadline that passed is reported for its phase and with the evidence that
/// there was, neither more nor less.
pub proof fn law_a_deadline_is_reported_with_its_evidence(
    phase: HaShutdownPhase,
    evidence: ShutdownEvidence,
)
    ensures
        conservative_shutdown_deadline_error(phase, evidence) matches
            HaNodeError::ShutdownDeadlineExceeded { phase: during, ingress, tasks, .. } && during
            == phase && ingress == evidence.ingress && tasks == evidence.tasks,
{
}

/// A failure of the runtime is tried again only where a member could not be
/// reached or lost a race, and becomes a cancellation of startup only where it
/// is one; all else keeps its message.
pub proof fn law_a_runtime_failure_keeps_its_class(error: NodeError)
    ensures
        error.spec_is_transient() <==> (error.kind is Unavailable || error.kind is Contention),
        error.kind matches NodeErrorKind::StartupCancelled(token) ==> error.spec_startup_error()
            == HaStartupError::Cancelled(token),
        !(error.kind is StartupCancelled) ==> error.spec_startup_error() == HaStartupError::Source(
            error.message,
        ),
{
}

/// What an error says to a reader names its kind first and then all that it
/// holds, and a failed cleanup comes after the failure that it followed.
pub proof fn law_a_message_says_all_that_the_error_holds(error: HaNodeError)
    ensures
        match error {
            HaNodeError::Startup(HaStartupError::Source(text)) => error.spec_message()
                == "HA startup failed: "@ + text@,
            HaNodeError::Startup(HaStartupError::Cancelled(_)) => error.spec_message()
                == "HA startup failed: "@ + "startup cancelled"@,
            HaNodeError::CertifiedTail(tail) => error.spec_message() == "certified tail failed: "@
                + tail.spec_message() && match tail {
                HaCertifiedTailError::Unavailable(text) => tail.spec_message()
                    == "source unavailable: "@ + text@,
                HaCertifiedTailError::Rejected(text) => tail.spec_message()
                    == "source rejected the request: "@ + text@,
                HaCertifiedTailError::RebaseRequired(anchor) => tail.spec_message()
                    == "source requires a newer checkpoint at index "@ + crate::text::decimal(
                    anchor.index as nat,
                ) + " with hash "@ + anchor.hash.spec_hex(),
            },
            HaNodeError::RecorderServer(text) => error.spec_message() == "recorder server failed: "@
                + text@,
            HaNodeError::ServiceServer(text) => error.spec_message() == "service server failed: "@
                + text@,
            HaNodeError::Supervisor(text) => error.spec_message() == "HA supervisor failed: "@
                + text@,
            HaNodeError::WorkerFailure(classification) => error.spec_message()
                == "HA worker failed with code "@ + classification.code@,
            HaNodeError::StartupIoDeadlineExceeded { stage } => error.spec_message()
                == "HA startup I/O exceeded the shutdown deadline during "@ + stage@,
            HaNodeError::ShutdownDeadlineExceeded { phase, .. } => error.spec_message()
                == "HA shutdown deadline exceeded during "@ + phase.spec_name(),
            HaNodeError::ShutdownIncomplete { phase, cause, .. } => error.spec_message()
                == "HA shutdown incomplete during "@ + phase.spec_name() + ": "@
                + cause.spec_message() && match cause {
                HaShutdownCause::RecorderOutcomeUnknown => cause.spec_message()
                    == "recorder outcome is unknown"@,
                HaShutdownCause::Source(source) => cause.spec_message() == source.message@,
                HaShutdownCause::TaskFailure(worker) => cause.spec_message() == "task failure: "@
                    + match worker.failure {
                    ShutdownTaskFailure::Cancelled => "Cancelled"@,
                    ShutdownTaskFailure::Panicked => "Panicked"@,
                },
            },
            HaNodeError::Cleanup { primary, cleanup } => error.spec_message()
                == primary.spec_message() + "; cleanup also failed: "@ + cleanup.spec_message(),
            HaNodeError::Cancelled => error.spec_message() == "HA node startup was cancelled"@,
        },
{
    reveal_with_fuel(HaNodeError::spec_message, 2);
}

/// A failure leads to the one that it is about, and one that is about nothing
/// else leads nowhere.
pub proof fn law_a_failure_leads_to_its_cause(
    error: HaNodeError,
    source: Option<ErrorSource<'_>>,
)
    requires
        call_ensures(HaNodeError::source, (&error,), source),
    ensures
        error matches HaNodeError::Startup(startup) ==> source == Some(
            ErrorSource::Startup(&startup),
        ),
        error matches HaNodeError::CertifiedTail(tail) ==> source == Some(
            ErrorSource::CertifiedTail(&tail),
        ),
        error matches HaNodeError::ShutdownIncomplete { cause, .. } ==> source == Some(
            ErrorSource::Shutdown(&cause),
        ),
        error matches HaNodeError::Cleanup { primary, .. } ==> source == Some(
            ErrorSource::Node(&primary),
        ),
        source is Some ==> error is Startup || error is CertifiedTail || error is ShutdownIncomplete
            || error is Cleanup,
{
}

/// A failure that is said to have a message is of that kind and holds that
/// message and no other.
pub proof fn law_a_failure_holds_the_message_that_it_is_said_to_have(
    startup: HaStartupError,
    error: HaNodeError,
    message: Seq<char>,
)
    ensures
        startup.is_source(message) <==> (startup matches HaStartupError::Source(text) && text@
            == message),
        error.is_startup(message) <==> (error matches HaNodeError::Startup(
            HaStartupError::Source(text),
        ) && text@ == message),
        error.is_recorder_server(message) <==> (error matches HaNodeError::RecorderServer(text)
            && text@ == message),
        error.is_service_server(message) <==> (error matches HaNodeError::ServiceServer(text)
            && text@ == message),
        error.is_supervisor(message) <==> (error matches HaNodeError::Supervisor(text) && text@
            == message),
{
}

/// A terminal failure and a failed cleanup are returned together, the terminal
/// one first; either alone is returned as it is, and neither is a success.
pub proof fn law_results_are_returned_together(
    terminal: Option<HaNodeError>,
    cleanup: Result<(), HaNodeError>,
    result: Result<(), HaNodeError>,
)
    requires
        call_ensures(combine_ha_results, (terminal, cleanup), result),
    ensures
        result is Ok <==> terminal is None && cleanup is Ok,
        terminal is Some && cleanup is Ok ==> result == Err::<(), HaNodeError>(terminal->0),
        terminal is None && cleanup is Err ==> result == cleanup,
        terminal is Some && cleanup is Err ==> result == Err::<(), HaNodeError>(
            HaNodeError::Cleanup {
                primary: Box::new(terminal->0),
                cleanup: Box::new(cleanup->Err_0),
            },
        ),
{
}

/// A list of failures is returned as one: the failures before the last one are
/// gathered first, and the last one is added to them as a failed cleanup. An
/// empty list is a success, and a failure that is alone is returned as it is.
pub proof fn law_failures_are_returned_together(
    errors: Vec<HaNodeError>,
    earlier: Vec<HaNodeError>,
    result: Result<(), HaNodeError>,
    before: Result<(), HaNodeError>,
)
    requires
        call_ensures(combine_ha_errors, (errors,), result),
        call_ensures(combine_ha_errors, (earlier,), before),
        errors@.len() > 0 ==> earlier@ == errors@.drop_last(),
    ensures
        result is Ok <==> errors@.len() == 0,
        errors@.len() == 1 ==> before is Ok && result == Err::<(), HaNodeError>(errors@[0]),
        errors@.len() > 1 ==> before is Err && result == Err::<(), HaNodeError>(
            HaNodeError::Cleanup {
                primary: Box::new(before->Err_0),
                cleanup: Box::new(errors@.last()),
            },
        ),
{
    if errors@.len() > 1 {
        let later = errors@.skip(1);
        assert(later.drop_last() =~= earlier@.skip(1));
        assert(later.last() == errors@.last());
    }
}

/// An incomplete shutdown leads to what stopped it, and a worker to how it
/// ended.
pub proof fn law_a_cause_leads_to_what_stopped_the_shutdown(
    cause: HaShutdownCause,
    worker: WorkerError,
    source: Option<ErrorSource<'_>>,
    task: Option<ErrorSource<'_>>,
)
    requires
        call_ensures(HaShutdownCause::source, (&cause,), source),
        call_ensures(WorkerError::source, (&worker,), task),
    ensures
        cause is RecorderOutcomeUnknown <==> source is None,
        cause matches HaShutdownCause::Source(error) ==> source == Some(
            ErrorSource::Owner(&error),
        ),
        cause matches HaShutdownCause::TaskFailure(error) ==> source == Some(
            ErrorSource::Worker(&error),
        ),
        task == Some(ErrorSource::Task(&worker.failure)),
{
}

} // verus!
