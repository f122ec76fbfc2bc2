//! The connectivity prober: is the internet in reach, and is the target
//! service?
//!
//! A check is a sequence of probes. The caller sends each probe and hands
//! back what came; the check says which probe comes next and when the status
//! is known. Any response is an answer, whatever its status. General
//! endpoints are probed in order until one answers. The target is probed
//! only after one did.
use crate::model::{texts, NetworkStatus, TransportFailure};
use vstd::prelude::*;
use vstd::string::*;

verus! {

/// Seconds that a probe of a general endpoint may take.
pub const INTERNET_PROBE_TIMEOUT_SECS: u64 = 3;

/// Seconds that the probe of the target service may take.
pub const TARGET_PROBE_TIMEOUT_SECS: u64 = 5;

/// What a probe is sent to.
#[derive(Clone, Copy, Debug, PartialEq, Eq, Structural)]
pub enum ProbeKind {
    /// A general endpoint.
    Internet,
    /// The target service.
    Target,
}

/// A probe to send: a GET to `url` that may take `timeout_secs` seconds.
#[derive(Debug, Clone, PartialEq, Eq)]
pub struct ProbeRequest {
    pub url: String,
    pub timeout_secs: u64,
    pub kind: ProbeKind,
}

/// `ProbeRequest` as a mathematical value.
pub struct ProbeRequestView {
    pub url: Seq<char>,
    pub timeout_secs: u64,
    pub kind: ProbeKind,
}

impl View for ProbeRequest {
    type V = ProbeRequestView;

    open spec fn view(&self) -> ProbeRequestView {
        ProbeRequestView { url: self.url@, timeout_secs: self.timeout_secs, kind: self.kind }
    }
}

/// The endpoints of a check: the general ones in the order in which they are
/// probed, and the target service.
#[derive(Debug, Clone, PartialEq, Eq)]
pub struct ProbePlan {
    pub internet_endpoints: Vec<String>,
    pub target: String,
}

/// `ProbePlan` as a mathematical value.
pub struct ProbePlanView {
    pub internet_endpoints: Seq<Seq<char>>,
    pub target: Seq<char>,
}

impl View for ProbePlan {
    type V = ProbePlanView;

    open spec fn view(&self) -> ProbePlanView {
        ProbePlanView {
            internet_endpoints: texts(self.internet_endpoints@),
            target: self.target@,
        }
    }
}

/// The general endpoints of the usual plan, in the order in which they are
/// probed: well-known hosts that are rarely down.
pub open spec fn general_endpoints() -> Seq<Seq<char>> {
    seq!["https://www.google.com"@, "https://1.1.1.1"@, "https://8.8.8.8"@]
}

impl ProbePlan {
    /// The usual plan for a target service: the general endpoints of
    /// `general_endpoints`, then the target.
    pub fn for_target(target: String) -> (plan: ProbePlan)
        ensures
            plan@ == (ProbePlanView { internet_endpoints: general_endpoints(), target: target@ }),
    {
        let mut internet_endpoints: Vec<String> = Vec::new();
        internet_endpoints.push(String::from_str("https://www.google.com"));
        internet_endpoints.push(String::from_str("https://1.1.1.1"));
        internet_endpoints.push(String::from_str("https://8.8.8.8"));
        assert(texts(internet_endpoints@) =~= general_endpoints());
        ProbePlan { internet_endpoints, target }
    }
}

/// The probe that a check waits for.
pub enum Pending {
    /// The general endpoint at this position of the plan.
    Internet(nat),
    /// The target service.
    Target,
}

/// A check that waits for the answer to a probe.
#[derive(Debug)]
pub struct StatusCheck {
    plan: ProbePlan,
    /// The position of the general endpoint that is being probed, or `None`
    /// while the target is.
    position: Option<usize>,
}

/// `StatusCheck` as a mathematical value.
pub struct StatusCheckView {
    pub plan: ProbePlanView,
    pub pending: Pending,
}

impl View for StatusCheck {
    type V = StatusCheckView;

    closed spec fn view(&self) -> StatusCheckView {
        StatusCheckView {
            plan: self.plan@,
            pending: match self.position {
                Some(at) => Pending::Internet(at as nat),
                None => Pending::Target,
            },
        }
    }
}

/// Where a check stands: a probe to send, or the status.
#[derive(Debug)]
pub enum ProbeStep {
    /// Send the probe and pass the answer to `StatusCheck::on_probe`.
    Probe(StatusCheck, ProbeRequest),
    /// The check is over.
    Done(NetworkStatus),
}

/// `ProbeStep` as a mathematical value.
pub enum ProbeStepView {
    Probe(StatusCheckView, ProbeRequestView),
    Done(NetworkStatus),
}

impl View for ProbeStep {
    type V = ProbeStepView;

    open spec fn view(&self) -> ProbeStepView {
        match self {
            ProbeStep::Probe(check, request) => ProbeStepView::Probe(check@, request@),
            ProbeStep::Done(status) => ProbeStepView::Done(*status),
        }
    }
}

/// Whether a probe was answered, given what sending it gave: the status of
/// the response, or the failure to get one. Any response is an answer,
/// whatever its status; a failure is none.
pub open spec fn reached(answer: Result<u16, TransportFailure>) -> bool {
    answer is Ok
}

/// The status where nothing is in reach.
pub open spec fn offline() -> NetworkStatus {
    NetworkStatus { is_online: false, can_reach_target: false }
}

/// The probe of the general endpoint at `position`.
pub open spec fn internet_request(plan: ProbePlanView, position: nat) -> ProbeRequestView {
    ProbeRequestView {
        url: plan.internet_endpoints[position as int],
        timeout_secs: INTERNET_PROBE_TIMEOUT_SECS,
        kind: ProbeKind::Internet,
    }
}

/// The probe of the target service.
pub open spec fn target_request(plan: ProbePlanView) -> ProbeRequestView {
    ProbeRequestView {
        url: plan.target,
        timeout_secs: TARGET_PROBE_TIMEOUT_SECS,
        kind: ProbeKind::Target,
    }
}

/// The step that probes the general endpoint at `position`.
pub open spec fn probe_internet(plan: ProbePlanView, position: nat) -> ProbeStepView {
    ProbeStepView::Probe(
        StatusCheckView { plan, pending: Pending::Internet(position) },
        internet_request(plan, position),
    )
}

/// The step that probes the target service.
pub open spec fn probe_target(plan: ProbePlanView) -> ProbeStepView {
    ProbeStepView::Probe(StatusCheckView { plan, pending: Pending::Target }, target_request(plan))
}

/// The first step of a check: the first general endpoint, or offline at once
/// where the plan has none.
pub open spec fn first_step(plan: ProbePlanView) -> ProbeStepView {
    if plan.internet_endpoints.len() == 0 {
        ProbeStepView::Done(offline())
    } else {
        probe_internet(plan, 0)
    }
}

/// The step after the answer to the pending probe.
///
/// A general endpoint that answers ends the general probes, and the target
/// is probed. One that does not is followed by the next, and by the status
/// offline after the last. The answer of the target completes the status.
pub open spec fn next_step(check: StatusCheckView, reached: bool) -> ProbeStepView {
    match check.pending {
        Pending::Internet(position) => if reached {
            probe_target(check.plan)
        } else if position + 1 < check.plan.internet_endpoints.len() {
            probe_internet(check.plan, position + 1)
        } else {
            ProbeStepView::Done(offline())
        },
        Pending::Target => ProbeStepView::Done(
            NetworkStatus { is_online: true, can_reach_target: reached },
        ),
    }
}

/// Where a check stands after the answers `answers`, given in order from
/// the step `step`. Answers that come after the end are not looked at.
pub open spec fn run(step: ProbeStepView, answers: Seq<bool>) -> ProbeStepView
    decreases answers.len(),
{
    match step {
        ProbeStepView::Probe(check, _) => if answers.len() == 0 {
            step
        } else {
            run(next_step(check, answers[0]), answers.drop_first())
        },
        ProbeStepView::Done(_) => step,
    }
}

/// The probes that a check asks for from the step `step` on, while it is
/// given the answers `answers` in order.
pub open spec fn probes(step: ProbeStepView, answers: Seq<bool>) -> Seq<ProbeRequestView>
    decreases answers.len(),
{
    match step {
        ProbeStepView::Probe(check, request) => if answers.len() == 0 {
            seq![request]
        } else {
            seq![request] + probes(next_step(check, answers[0]), answers.drop_first())
        },
        ProbeStepView::Done(_) => Seq::empty(),
    }
}

impl StatusCheck {
    #[verifier::type_invariant]
    spec fn position_in_plan(self) -> bool {
        match self.position {
            Some(at) => at < self.plan.internet_endpoints.len(),
            None => true,
        }
    }

    /// Takes what sending the pending probe gave: the status of the
    /// response, or the failure to get one.
    pub fn on_probe(self, answer: Result<u16, TransportFailure>) -> (step: ProbeStep)
        ensures
            step@ == next_step(self@, reached(answer)),
    {
        proof {
            use_type_invariant(&self);
        }
        let reached = answer.is_ok();
        match self.position {
            Some(at) => {
                if reached {
                    target_step(self.plan)
                } else if at + 1 < self.plan.internet_endpoints.len() {
                    internet_step(self.plan, at + 1)
                } else {
                    ProbeStep::Done(NetworkStatus { is_online: false, can_reach_target: false })
                }
            },
            None => ProbeStep::Done(NetworkStatus { is_online: true, can_reach_target: reached }),
        }
    }
}

/// The step that probes the general endpoint at `position`.
fn internet_step(plan: ProbePlan, position: usize) -> (step: ProbeStep)
    requires
        position < plan.internet_endpoints.len(),
    ensures
        step@ == probe_internet(plan@, position as nat),
{
    let request = ProbeRequest {
        url: plan.internet_endpoints[position].clone(),
        timeout_secs: INTERNET_PROBE_TIMEOUT_SECS,
        kind: ProbeKind::Internet,
    };
    ProbeStep::Probe(StatusCheck { plan, position: Some(position) }, request)
}

/// The step that probes the target service.
fn target_step(plan: ProbePlan) -> (step: ProbeStep)
    ensures
        step@ == probe_target(plan@),
{
    let request = ProbeRequest {
        url: plan.target.clone(),
        timeout_secs: TARGET_PROBE_TIMEOUT_SECS,
        kind: ProbeKind::Target,
    };
    ProbeStep::Probe(StatusCheck { plan, position: None }, request)
}

/// Starts a check of the network status.
pub fn check_network_status(plan: ProbePlan) -> (step: ProbeStep)
    ensures
        step@ == first_step(plan@),
{
    if plan.internet_endpoints.len() == 0 {
        ProbeStep::Done(NetworkStatus { is_online: false, can_reach_target: false })
    } else {
        internet_step(plan, 0)
    }
}

/// From a general probe on: a check that ends offline got no answer from
/// any general endpoint that was left, has asked for general probes only,
/// and says that the target is out of reach.
proof fn lemma_offline_from(plan: ProbePlanView, position: nat, answers: Seq<bool>)
    requires
        position < plan.internet_endpoints.len(),
    ensures
        run(probe_internet(plan, position), answers) matches ProbeStepView::Done(status) ==> (
        !status.is_online ==> {
            &&& status == offline()
            &&& answers.len() >= plan.internet_endpoints.len() - position
            &&& forall|i: int| 0 <= i < plan.internet_endpoints.len() - position ==> !answers[i]
            &&& forall|i: int|
                0 <= i < probes(probe_internet(plan, position), answers).len() ==> probes(
                    probe_internet(plan, position),
                    answers,
                )[i].kind == ProbeKind::Internet
        }),
    decreases answers.len(),
{
    let step = probe_internet(plan, position);
    if answers.len() > 0 {
        let rest = answers.drop_first();
        let check = StatusCheckView { plan, pending: Pending::Internet(position) };
        let next = next_step(check, answers[0]);
        assert(run(step, answers) == run(next, rest));
        if answers[0] {
            if rest.len() > 0 {
                let target = StatusCheckView { plan, pending: Pending::Target };
                assert(run(next, rest) == run(next_step(target, rest[0]), rest.drop_first()));
            }
        } else if position + 1 < plan.internet_endpoints.len() {
            lemma_offline_from(plan, position + 1, rest);
            if run(step, answers) matches ProbeStepView::Done(status) && !status.is_online {
                assert forall|i: int|
                    0 <= i < plan.internet_endpoints.len() - position implies !answers[i] by {
                    if i > 0 {
                        assert(answers[i] == rest[i - 1]);
                    }
                }
            }
        } else {
            assert(probes(next, rest) =~= Seq::<ProbeRequestView>::empty());
        }
    }
}

/// The target is never probed by a check that finds the machine offline.
/// Where the status at the end says `is_online == false`, no probe that was
/// asked for went to the target, `can_reach_target` is `false`, and every
/// general endpoint was probed and gave no answer.
pub proof fn lemma_offline_never_probes_target(plan: ProbePlanView, answers: Seq<bool>)
    ensures
        run(first_step(plan), answers) matches ProbeStepView::Done(status) ==> (
        !status.is_online ==> {
            &&& !status.can_reach_target
            &&& forall|i: int| 0 <= i < plan.internet_endpoints.len() ==> !answers[i]
            &&& forall|i: int|
                0 <= i < probes(first_step(plan), answers).len() ==> probes(
                    first_step(plan),
                    answers,
                )[i].kind != ProbeKind::Target
        }),
{
    if plan.internet_endpoints.len() > 0 {
        lemma_offline_from(plan, 0, answers);
    }
}

/// From a general probe on: a status that says that the target is in reach
/// says that the machine is online.
proof fn lemma_consistent_from(plan: ProbePlanView, position: nat, answers: Seq<bool>)
    requires
        position < plan.internet_endpoints.len(),
    ensures
        run(probe_internet(plan, position), answers) matches ProbeStepView::Done(status)
            ==> (status.can_reach_target ==> status.is_online),
    decreases answers.len(),
{
    if answers.len() > 0 {
        let rest = answers.drop_first();
        let check = StatusCheckView { plan, pending: Pending::Internet(position) };
        let next = next_step(check, answers[0]);
        assert(run(probe_internet(plan, position), answers) == run(next, rest));
        if answers[0] {
            if rest.len() > 0 {
                let target = StatusCheckView { plan, pending: Pending::Target };
                assert(run(next, rest) == run(next_step(target, rest[0]), rest.drop_first()));
            }
        } else if position + 1 < plan.internet_endpoints.len() {
            lemma_consistent_from(plan, position + 1, rest);
        }
    }
}

/// No status that a check ends with claims the target in reach while the
/// machine is offline.
pub proof fn lemma_target_needs_internet(plan: ProbePlanView, answers: Seq<bool>)
    ensures
        run(first_step(plan), answers) matches ProbeStepView::Done(status)
            ==> (status.can_reach_target ==> status.is_online),
{
    if plan.internet_endpoints.len() > 0 {
        lemma_consistent_from(plan, 0, answers);
    }
}

/// From a general probe on, where the endpoint at `first` is the first to
/// answer.
proof fn lemma_online_from(plan: ProbePlanView, position: nat, first: nat, answers: Seq<bool>)
    requires
        position <= first < plan.internet_endpoints.len(),
        answers.len() >= first - position + 2,
        forall|i: int| 0 <= i < first - position ==> !answers[i],
        answers[first - position],
    ensures
        run(probe_internet(plan, position), answers) == ProbeStepView::Done(
            NetworkStatus { is_online: true, can_reach_target: answers[first - position + 1] },
        ),
        probes(probe_internet(plan, position), answers).len() == first - position + 2,
        forall|i: int|
            0 <= i <= first - position ==> probes(probe_internet(plan, position), answers)[i]
                == internet_request(plan, (position + i) as nat),
        probes(probe_internet(plan, position), answers)[first - position + 1] == target_request(
            plan,
        ),
    decreases first - position,
{
    let step = probe_internet(plan, position);
    let rest = answers.drop_first();
    let check = StatusCheckView { plan, pending: Pending::Internet(position) };
    let next = next_step(check, answers[0]);
    assert(run(step, answers) == run(next, rest));
    assert(probes(step, answers) == seq![internet_request(plan, position)] + probes(next, rest));
    if position == first {
        let target = StatusCheckView { plan, pending: Pending::Target };
        assert(run(next, rest) == run(next_step(target, rest[0]), rest.drop_first()));
        assert(probes(next_step(target, rest[0]), rest.drop_first()) =~= Seq::<
            ProbeRequestView,
        >::empty());
        assert(probes(next, rest) =~= seq![target_request(plan)]);
    } else {
        assert forall|i: int| 0 <= i < first - (position + 1) implies !rest[i] by {
            assert(rest[i] == answers[i + 1]);
        }
        assert(rest[first - (position + 1)] == answers[first - position]);
        assert(rest[first - (position + 1) + 1] == answers[first - position + 1]);
        lemma_online_from(plan, position + 1, first, rest);
        assert forall|i: int| 0 <= i <= first - position implies probes(step, answers)[i]
            == internet_request(plan, (position + i) as nat) by {
            if i > 0 {
                assert(probes(step, answers)[i] == probes(next, rest)[i - 1]);
            }
        }
        assert(probes(step, answers)[first - position + 1] == probes(next, rest)[first
            - position]);
    }
}

/// Probing stops at the first general endpoint that answers. The endpoints
/// up to that one are probed in the order of the plan, the target comes
/// next, and its answer ends the check: the machine is online, and the
/// target is in reach exactly if it answered.
pub proof fn lemma_first_answer_decides(plan: ProbePlanView, first: nat, answers: Seq<bool>)
    requires
        first < plan.internet_endpoints.len(),
        answers.len() >= first + 2,
        forall|i: int| 0 <= i < first ==> !answers[i],
        answers[first as int],
    ensures
        run(first_step(plan), answers) == ProbeStepView::Done(
            NetworkStatus { is_online: true, can_reach_target: answers[first as int + 1] },
        ),
        probes(first_step(plan), answers).len() == first + 2,
        forall|i: int|
            0 <= i <= first ==> probes(first_step(plan), answers)[i] == internet_request(
                plan,
                i as nat,
            ),
        probes(first_step(plan), answers)[first as int + 1] == target_request(plan),
{
    lemma_online_from(plan, 0, first, answers);
}

/// From a general probe on, where no endpoint that is left answers.
proof fn lemma_unanswered_from(plan: ProbePlanView, position: nat, answers: Seq<bool>)
    requires
        position < plan.internet_endpoints.len(),
        answers.len() >= plan.internet_endpoints.len() - position,
        forall|i: int| 0 <= i < plan.internet_endpoints.len() - position ==> !answers[i],
    ensures
        run(probe_internet(plan, position), answers) == ProbeStepView::Done(offline()),
        probes(probe_internet(plan, position), answers).len() == plan.internet_endpoints.len()
            - position,
        forall|i: int|
            0 <= i < plan.internet_endpoints.len() - position ==> probes(
                probe_internet(plan, position),
                answers,
            )[i] == internet_request(plan, (position + i) as nat),
    decreases plan.internet_endpoints.len() - position,
{
    let step = probe_internet(plan, position);
    let rest = answers.drop_first();
    let check = StatusCheckView { plan, pending: Pending::Internet(position) };
    let next = next_step(check, answers[0]);
    assert(run(step, answers) == run(next, rest));
    assert(probes(step, answers) == seq![internet_request(plan, position)] + probes(next, rest));
    if position + 1 < plan.internet_endpoints.len() {
        assert forall|i: int|
            0 <= i < plan.internet_endpoints.len() - (position + 1) implies !rest[i] by {
            assert(rest[i] == answers[i + 1]);
        }
        lemma_unanswered_from(plan, position + 1, rest);
        assert forall|i: int| 0 <= i < plan.internet_endpoints.len() - position implies probes(
            step,
            answers,
        )[i] == internet_request(plan, (position + i) as nat) by {
            if i > 0 {
                assert(probes(step, answers)[i] == probes(next, rest)[i - 1]);
            }
        }
    } else {
        assert(probes(next, rest) =~= Seq::<ProbeRequestView>::empty());
    }
}

/// Where no general endpoint answers, each is probed once, in the order of
/// the plan, and the check ends offline without a probe of the target.
pub proof fn lemma_no_answer_is_offline(plan: ProbePlanView, answers: Seq<bool>)
    requires
        answers.len() >= plan.internet_endpoints.len(),
        forall|i: int| 0 <= i < plan.internet_endpoints.len() ==> !answers[i],
    ensures
        run(first_step(plan), answers) == ProbeStepView::Done(offline()),
        probes(first_step(plan), answers).len() == plan.internet_endpoints.len(),
        forall|i: int|
            0 <= i < plan.internet_endpoints.len() ==> probes(first_step(plan), answers)[i]
                == internet_request(plan, i as nat),
{
    if plan.internet_endpoints.len() > 0 {
        lemma_unanswered_from(plan, 0, answers);
    }
}

/// From a general probe on: the check is over once every remaining general
/// endpoint and the target could have been answered.
proof fn lemma_ends_from(plan: ProbePlanView, position: nat, answers: Seq<bool>)
    requires
        position < plan.internet_endpoints.len(),
        answers.len() > plan.internet_endpoints.len() - position,
    ensures
        run(probe_internet(plan, position), answers) is Done,
    decreases answers.len(),
{
    let rest = answers.drop_first();
    let check = StatusCheckView { plan, pending: Pending::Internet(position) };
    let next = next_step(check, answers[0]);
    assert(run(probe_internet(plan, position), answers) == run(next, rest));
    if answers[0] {
        let target = StatusCheckView { plan, pending: Pending::Target };
        assert(run(next, rest) == run(next_step(target, rest[0]), rest.drop_first()));
    } else if position + 1 < plan.internet_endpoints.len() {
        lemma_ends_from(plan, position + 1, rest);
    }
}

/// A check ends: it asks for one probe per general endpoint at most, and one
/// of the target.
pub proof fn lemma_check_ends(plan: ProbePlanView, answers: Seq<bool>)
    requires
        answers.len() > plan.internet_endpoints.len(),
    ensures
        run(first_step(plan), answers) is Done,
{
    if plan.internet_endpoints.len() > 0 {
        lemma_ends_from(plan, 0, answers);
    }
}

} // verus!
