//! The reconciliation engine: one convergence cycle as a sequence of
//! decisions. The engine performs no work on the platform itself. It is told
//! how the last step ended and answers with the next step and what is to be
//! done for it; whoever drives it performs that and reports back.

use crate::crd::{ShazamqClusterSpec, ShazamqClusterSpecView, ShazamqClusterStatus, ShazamqClusterStatusView};
use crate::descriptors::{
    ConfigArtifact, ConfigArtifactView, EndpointDescriptor, EndpointDescriptorView,
    ReplicaGroupDescriptor, ReplicaGroupDescriptorView,
};
use crate::status::{project_status, status_model};
use crate::synth::{
    client_endpoint, client_endpoint_model, config_artifact, config_artifact_model,
    discovery_endpoint, discovery_endpoint_model, replica_group, replica_group_model,
};
use vstd::prelude::*;
use vstd::string::*;

verus! {

/// Seconds after which a cluster is looked at again once a cycle succeeded.
pub const SUCCESS_REQUEUE_SECS: u64 = 300;

/// Seconds after which a cluster is looked at again once a cycle failed.
pub const FAILURE_REQUEUE_SECS: u64 = 60;

/// The harness's own type for what a reconciliation asks of it.
#[verifier::external_type_specification]
#[verifier::external_body]
pub struct ExAction(kube::runtime::controller::Action);

/// The platform client's parameters of a patch call.
#[verifier::external_type_specification]
pub struct ExPatchParams(kube::api::PatchParams);

/// The platform client's choice of how strictly a patch is validated.
#[verifier::external_type_specification]
pub struct ExValidationDirective(kube::api::ValidationDirective);

/// When the next cycle for a cluster is due.
#[derive(Debug, Clone, Copy, PartialEq, Eq, Structural)]
pub struct RequeueDirective {
    pub after_secs: u64,
}

/// The steps of a cycle. Each but the first and the last names the work that
/// is under way on the platform.
#[derive(Debug, Clone, Copy, PartialEq, Eq, Structural)]
pub enum Step {
    /// Nothing has been done yet.
    Start,
    /// The configuration artifact is being applied.
    Config,
    /// The client-facing endpoint is being applied.
    ClientEndpoint,
    /// The discovery endpoint is being applied.
    DiscoveryEndpoint,
    /// The replica group is being applied.
    ReplicaGroup,
    /// The health of the replica group is being read.
    Health,
    /// The status is being applied.
    Status,
    /// The cycle is over.
    Done,
}

/// How the work of a step ended.
#[derive(Debug, Clone, Copy, PartialEq, Eq, Structural)]
pub enum Event {
    /// The cycle begins.
    Started,
    /// The platform acknowledged what was applied.
    Applied,
    /// The replica group was read, with the number of ready replicas that it
    /// reports, if it reports one.
    Observed(Option<i32>),
    /// The platform refused or could not be reached.
    Failed,
}

/// What is to be done next.
#[derive(Debug, Clone)]
pub enum Command {
    /// Apply the configuration artifact.
    ApplyConfig(ConfigArtifact),
    /// Apply an endpoint.
    ApplyEndpoint(EndpointDescriptor),
    /// Apply the replica group.
    ApplyReplicaGroup(ReplicaGroupDescriptor),
    /// Read the replica group of this name.
    ReadReplicaGroup(String),
    /// Apply the status.
    ApplyStatus(ShazamqClusterStatus),
    /// The cycle succeeded: come back when the directive says.
    Requeue(RequeueDirective),
    /// The cycle is given up at this step, and nothing more is applied in it.
    Abort(Step),
}

/// What an [`Command`] holds, as mathematical values.
pub enum CommandView {
    ApplyConfig(ConfigArtifactView),
    ApplyEndpoint(EndpointDescriptorView),
    ApplyReplicaGroup(ReplicaGroupDescriptorView),
    ReadReplicaGroup(Seq<char>),
    ApplyStatus(ShazamqClusterStatusView),
    Requeue(RequeueDirective),
    Abort(Step),
}

impl DeepView for Command {
    type V = CommandView;

    open spec fn deep_view(&self) -> CommandView {
        match *self {
            Command::ApplyConfig(c) => CommandView::ApplyConfig(c.deep_view()),
            Command::ApplyEndpoint(e) => CommandView::ApplyEndpoint(e.deep_view()),
            Command::ApplyReplicaGroup(g) => CommandView::ApplyReplicaGroup(g.deep_view()),
            Command::ReadReplicaGroup(n) => CommandView::ReadReplicaGroup(n@),
            Command::ApplyStatus(s) => CommandView::ApplyStatus(s.deep_view()),
            Command::Requeue(d) => CommandView::Requeue(d),
            Command::Abort(s) => CommandView::Abort(s),
        }
    }
}

/// The event is the one that ends the step well.
pub open spec fn advances(step: Step, event: Event) -> bool {
    match step {
        Step::Start => event is Started,
        Step::Config => event is Applied,
        Step::ClientEndpoint => event is Applied,
        Step::DiscoveryEndpoint => event is Applied,
        Step::ReplicaGroup => event is Applied,
        Step::Health => event is Observed,
        Step::Status => event is Applied,
        Step::Done => false,
    }
}

/// The step that follows a step that ended well.
pub open spec fn successor(step: Step) -> Step {
    match step {
        Step::Start => Step::Config,
        Step::Config => Step::ClientEndpoint,
        Step::ClientEndpoint => Step::DiscoveryEndpoint,
        Step::DiscoveryEndpoint => Step::ReplicaGroup,
        Step::ReplicaGroup => Step::Health,
        Step::Health => Step::Status,
        Step::Status => Step::Done,
        Step::Done => Step::Done,
    }
}

/// The place of a step in the fixed order of a cycle.
pub open spec fn position(step: Step) -> nat {
    match step {
        Step::Start => 0,
        Step::Config => 1,
        Step::ClientEndpoint => 2,
        Step::DiscoveryEndpoint => 3,
        Step::ReplicaGroup => 4,
        Step::Health => 5,
        Step::Status => 6,
        Step::Done => 7,
    }
}

/// The step after `step` once `event` is reported: the successor where the
/// step ended well, the end of the cycle on anything else.
pub open spec fn next_step(step: Step, event: Event) -> Step {
    if advances(step, event) {
        successor(step)
    } else {
        Step::Done
    }
}

/// What is to be done once `event` is reported in `step`.
pub open spec fn command_model(
    spec: ShazamqClusterSpecView,
    name: Seq<char>,
    namespace: Seq<char>,
    step: Step,
    event: Event,
) -> CommandView {
    if !advances(step, event) {
        CommandView::Abort(step)
    } else {
        match step {
            Step::Start => CommandView::ApplyConfig(config_artifact_model(spec, name, namespace)),
            Step::Config => CommandView::ApplyEndpoint(
                client_endpoint_model(spec, name, namespace),
            ),
            Step::ClientEndpoint => CommandView::ApplyEndpoint(
                discovery_endpoint_model(name, namespace),
            ),
            Step::DiscoveryEndpoint => CommandView::ApplyReplicaGroup(
                replica_group_model(spec, name, namespace),
            ),
            Step::ReplicaGroup => CommandView::ReadReplicaGroup(name),
            Step::Health => CommandView::ApplyStatus(
                status_model(spec.replicas, event->Observed_0),
            ),
            Step::Status => CommandView::Requeue(
                RequeueDirective { after_secs: SUCCESS_REQUEUE_SECS },
            ),
            Step::Done => CommandView::Abort(step),
        }
    }
}

/// The steps of a cycle come in one fixed order: a step that ended well is
/// followed by the one next in place, and anything else ends the cycle. So a
/// cycle never goes back, and ends after seven decisions at most.
pub proof fn lemma_steps_in_fixed_order(step: Step, event: Event)
    ensures
        advances(step, event) ==> position(next_step(step, event)) == position(step) + 1,
        !advances(step, event) ==> next_step(step, event) == Step::Done,
        step != Step::Done ==> position(next_step(step, event)) > position(step),
        position(next_step(step, event)) <= 7,
{
}

/// A cycle in which every step ends well takes seven decisions: the
/// configuration artifact, the client-facing endpoint, the discovery
/// endpoint, the replica group, the reading of its health, the status that
/// this health gives, and the requeue after the long interval.
pub proof fn lemma_successful_cycle(
    spec: ShazamqClusterSpecView,
    name: Seq<char>,
    namespace: Seq<char>,
    observed: Option<i32>,
)
    ensures
        ({
            let s1 = next_step(Step::Start, Event::Started);
            let s2 = next_step(s1, Event::Applied);
            let s3 = next_step(s2, Event::Applied);
            let s4 = next_step(s3, Event::Applied);
            let s5 = next_step(s4, Event::Applied);
            let s6 = next_step(s5, Event::Observed(observed));
            let s7 = next_step(s6, Event::Applied);
            &&& command_model(spec, name, namespace, Step::Start, Event::Started)
                == CommandView::ApplyConfig(config_artifact_model(spec, name, namespace))
            &&& command_model(spec, name, namespace, s1, Event::Applied)
                == CommandView::ApplyEndpoint(client_endpoint_model(spec, name, namespace))
            &&& command_model(spec, name, namespace, s2, Event::Applied)
                == CommandView::ApplyEndpoint(discovery_endpoint_model(name, namespace))
            &&& command_model(spec, name, namespace, s3, Event::Applied)
                == CommandView::ApplyReplicaGroup(replica_group_model(spec, name, namespace))
            &&& command_model(spec, name, namespace, s4, Event::Applied)
                == CommandView::ReadReplicaGroup(name)
            &&& command_model(spec, name, namespace, s5, Event::Observed(observed))
                == CommandView::ApplyStatus(status_model(spec.replicas, observed))
            &&& command_model(spec, name, namespace, s6, Event::Applied) == CommandView::Requeue(
                RequeueDirective { after_secs: 300 },
            )
            &&& s7 == Step::Done
        }),
{
}

/// A failure at any step ends the cycle there: the step is named, nothing
/// further is applied, and what was applied before stays as it is.
pub proof fn lemma_failure_ends_cycle(
    spec: ShazamqClusterSpecView,
    name: Seq<char>,
    namespace: Seq<char>,
    step: Step,
)
    ensures
        next_step(step, Event::Failed) == Step::Done,
        command_model(spec, name, namespace, step, Event::Failed) == CommandView::Abort(step),
{
}

/// The replica group is applied only after the configuration artifact and
/// the discovery endpoint that it refers to; the status is applied only after
/// the health was read; and only a whole cycle ends in a requeue.
pub proof fn lemma_dependencies_first(
    spec: ShazamqClusterSpecView,
    name: Seq<char>,
    namespace: Seq<char>,
    step: Step,
    event: Event,
)
    ensures
        command_model(spec, name, namespace, step, event) is ApplyConfig ==> position(step) == 0,
        command_model(spec, name, namespace, step, event) is ApplyReplicaGroup ==> position(step)
            == 3,
        command_model(spec, name, namespace, step, event) is ApplyStatus ==> position(step) == 5,
        command_model(spec, name, namespace, step, event) is Requeue ==> position(step) == 6,
{
}

/// The harness's form of a requeue directive: come back after that many
/// seconds if nothing changes before.
pub uninterp spec fn requeue_action(after_secs: u64) -> kube::runtime::controller::Action;

/// Calls `kube::runtime::controller::Action::requeue` with a duration of
/// `after_secs` whole seconds. The result is a function of the duration
/// alone; it is known here by name only, since the harness keeps what is
/// inside an action to itself.
#[verifier::external_body]
fn requeue_after(after_secs: u64) -> (a: kube::runtime::controller::Action)
    ensures
        a == requeue_action(after_secs),
{
    kube::runtime::controller::Action::requeue(std::time::Duration::from_secs(after_secs))
}

/// The action that tells the harness to follow `directive`.
pub fn to_action(directive: RequeueDirective) -> (a: kube::runtime::controller::Action)
    ensures
        a == requeue_action(directive.after_secs),
{
    requeue_after(directive.after_secs)
}

/// Calls `kube::api::PatchParams::apply`: parameters for an apply patch that
/// name `manager` as the actor and leave everything else as it is by
/// default, that is no dry run, no forcing and no validation directive.
#[verifier::external_body]
fn apply_params(manager: &str) -> (p: kube::api::PatchParams)
    ensures
        p.field_manager is Some,
        p.field_manager->0@ == manager@,
        !p.dry_run,
        !p.force,
        p.field_validation is None,
{
    kube::api::PatchParams::apply(manager)
}

/// The namespace of a resource that names none.
pub fn resolve_namespace(namespace: Option<String>) -> (r: String)
    ensures
        r@ == match namespace {
            Some(n) => n@,
            None => "default"@,
        },
{
    match namespace {
        Some(n) => n,
        None => String::from_str("default"),
    }
}

/// The context of the engine: made once, and handed to every cycle. Every
/// engine applies under the one fixed identity of the operator.
#[derive(Debug)]
pub struct Reconciler {
    field_manager: String,
}

impl Clone for Reconciler {
    fn clone(&self) -> (r: Self)
        ensures
            r.actor() == self.actor(),
            r.actor() == "shazamq-operator"@,
    {
        proof {
            use_type_invariant(self);
        }
        Reconciler::new()
    }
}

impl Reconciler {
    #[verifier::type_invariant]
    spec fn fixed_identity(self) -> bool {
        self.field_manager@ == "shazamq-operator"@
    }

    /// The identity under which everything is applied.
    pub closed spec fn actor(&self) -> Seq<char> {
        self.field_manager@
    }

    /// An engine that applies under the operator's fixed identity.
    pub fn new() -> (r: Self)
        ensures
            r.actor() == "shazamq-operator"@,
    {
        Reconciler { field_manager: String::from_str("shazamq-operator") }
    }

    /// The identity under which everything is applied.
    pub fn field_manager(&self) -> (r: &str)
        ensures
            r@ == "shazamq-operator"@,
            r@ == self.actor(),
    {
        proof {
            use_type_invariant(self);
        }
        self.field_manager.as_str()
    }

    /// The parameters of every apply call: the operator's fixed identity as
    /// the actor, and neither dry run nor forcing.
    pub fn patch_params(&self) -> (p: kube::api::PatchParams)
        ensures
            p.field_manager is Some,
            p.field_manager->0@ == "shazamq-operator"@,
            p.field_manager->0@ == self.actor(),
            !p.dry_run,
            !p.force,
            p.field_validation is None,
    {
        proof {
            use_type_invariant(self);
        }
        apply_params(self.field_manager.as_str())
    }

    /// One decision of a cycle: from the step under way and the event that
    /// ended it to the next step and what is to be done for it.
    pub fn reconcile(
        &self,
        spec: &ShazamqClusterSpec,
        name: &str,
        namespace: &str,
        step: Step,
        event: Event,
    ) -> (r: (Step, Command))
        ensures
            r.0 == next_step(step, event),
            r.1.deep_view() == command_model(spec.deep_view(), name@, namespace@, step, event),
    {
        match (step, event) {
            (Step::Start, Event::Started) => (
                Step::Config,
                Command::ApplyConfig(config_artifact(spec, name, namespace)),
            ),
            (Step::Config, Event::Applied) => (
                Step::ClientEndpoint,
                Command::ApplyEndpoint(client_endpoint(spec, name, namespace)),
            ),
            (Step::ClientEndpoint, Event::Applied) => (
                Step::DiscoveryEndpoint,
                Command::ApplyEndpoint(discovery_endpoint(name, namespace)),
            ),
            (Step::DiscoveryEndpoint, Event::Applied) => (
                Step::ReplicaGroup,
                Command::ApplyReplicaGroup(replica_group(spec, name, namespace)),
            ),
            (Step::ReplicaGroup, Event::Applied) => (
                Step::Health,
                Command::ReadReplicaGroup(String::from_str(name)),
            ),
            (Step::Health, Event::Observed(ready)) => (
                Step::Status,
                Command::ApplyStatus(project_status(spec, ready)),
            ),
            (Step::Status, Event::Applied) => (
                Step::Done,
                Command::Requeue(RequeueDirective { after_secs: SUCCESS_REQUEUE_SECS }),
            ),
            _ => (Step::Done, Command::Abort(step)),
        }
    }

    /// When to come back after a cycle that was given up.
    pub fn error_policy(&self) -> (r: RequeueDirective)
        ensures
            r.after_secs == FAILURE_REQUEUE_SECS,
    {
        RequeueDirective { after_secs: FAILURE_REQUEUE_SECS }
    }
}

} // verus!
