//! The status projection: from the number of replicas asked for and the
//! number observed ready to the phase and the status of the cluster. It keeps
//! no memory: the same two numbers always give the same status.

use crate::crd::{ShazamqClusterSpec, ShazamqClusterStatus, ShazamqClusterStatusView};
use vstd::prelude::*;
use vstd::string::*;

verus! {

/// Where a cluster stands on its way to the desired number of replicas.
#[derive(Debug, Clone, Copy, PartialEq, Eq, Structural)]
pub enum Phase {
    /// No replica is ready yet.
    Creating,
    /// Some replicas are ready, and their number is not the one asked for.
    Updating,
    /// As many replicas are ready as were asked for.
    Running,
}

/// The phase for `replicas` asked for and `ready` observed ready.
pub open spec fn phase_of(replicas: int, ready: int) -> Phase {
    if ready == replicas {
        Phase::Running
    } else if ready > 0 {
        Phase::Updating
    } else {
        Phase::Creating
    }
}

/// The number of ready replicas that an observation stands for: nothing
/// observed counts as none ready.
pub open spec fn observed_ready(observed: Option<i32>) -> i32 {
    match observed {
        Some(n) => n,
        None => 0i32,
    }
}

/// The number of ready replicas that a status reports: the number observed,
/// but never more than were asked for. While a group shrinks, more replicas
/// may still be ready than the desired state asks for; the status then
/// reports as many as it asks for.
pub open spec fn reported_ready(replicas: i32, observed: Option<i32>) -> i32 {
    if observed_ready(observed) > replicas {
        replicas
    } else {
        observed_ready(observed)
    }
}

/// The status for a desired number of replicas and an observation. The phase
/// goes by the observation as it came, the ready count is capped at the
/// number asked for.
pub open spec fn status_model(replicas: i32, observed: Option<i32>) -> ShazamqClusterStatusView {
    ShazamqClusterStatusView {
        phase: Some(phase_of(replicas as int, observed_ready(observed) as int).text()),
        replicas: Some(replicas),
        ready_replicas: Some(reported_ready(replicas, observed)),
        conditions: None,
        brokers: None,
    }
}

impl Phase {
    /// The word under which the phase is reported.
    pub open spec fn text(self) -> Seq<char> {
        match self {
            Phase::Creating => "Creating"@,
            Phase::Updating => "Updating"@,
            Phase::Running => "Running"@,
        }
    }

    /// The word under which the phase is reported.
    pub fn as_str(&self) -> (r: &'static str)
        ensures
            r@ == self.text(),
    {
        match self {
            Phase::Creating => "Creating",
            Phase::Updating => "Updating",
            Phase::Running => "Running",
        }
    }
}

/// While no more replicas are ready than were asked for, and not fewer than
/// none: the phase is `Running` exactly where all are ready, `Creating`
/// exactly where none is ready though some were asked for, and `Updating`
/// exactly in between.
pub proof fn lemma_phase_table(replicas: int, ready: int)
    requires
        0 <= ready <= replicas,
    ensures
        phase_of(replicas, ready) == Phase::Running <==> ready == replicas,
        phase_of(replicas, ready) == Phase::Creating <==> ready == 0 && replicas > 0,
        phase_of(replicas, ready) == Phase::Updating <==> 0 < ready < replicas,
{
}

/// A cluster of no replicas is `Running` with none ready, whether or not
/// anything was observed.
pub proof fn lemma_empty_cluster_runs()
    ensures
        phase_of(0, observed_ready(None) as int) == Phase::Running,
        phase_of(0, observed_ready(Some(0i32)) as int) == Phase::Running,
        status_model(0i32, None).ready_replicas == Some(0i32),
{
}

/// The three phases are reported under three different words.
pub proof fn lemma_phase_words_differ(a: Phase, b: Phase)
    ensures
        a.text() == b.text() <==> a == b,
{
    reveal_strlit("Creating");
    reveal_strlit("Updating");
    reveal_strlit("Running");
    assert("Creating"@[0] == 'C');
    assert("Updating"@[0] == 'U');
    assert("Running"@[0] == 'R');
}

/// After every projection the status reports no more replicas ready than
/// were asked for, whatever was observed.
pub proof fn lemma_ready_never_above_replicas(replicas: i32, observed: Option<i32>)
    ensures
        status_model(replicas, observed).ready_replicas is Some,
        status_model(replicas, observed).replicas == Some(replicas),
        status_model(replicas, observed).ready_replicas->0 <= status_model(
            replicas,
            observed,
        ).replicas->0,
        replicas >= 0 && observed_ready(observed) >= 0 ==> status_model(
            replicas,
            observed,
        ).ready_replicas->0 >= 0,
{
}

/// A projection has no memory: the phase is decided by the number asked for
/// and the number observed alone, and an observation that is not above the
/// number asked for is reported as it came.
pub proof fn lemma_projection_is_memoryless(replicas: i32, observed: Option<i32>)
    ensures
        status_model(replicas, observed).phase == Some(
            phase_of(replicas as int, observed_ready(observed) as int).text(),
        ),
        observed_ready(observed) <= replicas ==> status_model(replicas, observed).ready_replicas
            == Some(observed_ready(observed)),
        observed_ready(observed) > replicas ==> status_model(replicas, observed).ready_replicas
            == Some(replicas),
{
}

/// The phase for `replicas` asked for and `ready_replicas` observed ready.
pub fn project_phase(replicas: i32, ready_replicas: i32) -> (p: Phase)
    ensures
        p == phase_of(replicas as int, ready_replicas as int),
{
    if ready_replicas == replicas {
        Phase::Running
    } else if ready_replicas > 0 {
        Phase::Updating
    } else {
        Phase::Creating
    }
}

/// The status of a cluster whose replica group was observed with
/// `observed` replicas ready (`None`: the group reports no such number). The
/// status never reports more replicas ready than the desired state asks for.
pub fn project_status(spec: &ShazamqClusterSpec, observed: Option<i32>) -> (r:
    ShazamqClusterStatus)
    ensures
        r.deep_view() == status_model(spec.replicas, observed),
        r.replicas == Some(spec.replicas),
        r.ready_replicas is Some,
        r.ready_replicas->0 <= spec.replicas,
{
    let seen: i32 = match observed {
        Some(n) => n,
        None => 0,
    };
    let phase = project_phase(spec.replicas, seen);
    let ready_replicas: i32 = if seen > spec.replicas {
        spec.replicas
    } else {
        seen
    };
    ShazamqClusterStatus {
        phase: Some(String::from_str(phase.as_str())),
        replicas: Some(spec.replicas),
        ready_replicas: Some(ready_replicas),
        conditions: None,
        brokers: None,
    }
}

} // verus!
