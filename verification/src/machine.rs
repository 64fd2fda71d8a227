use vstd::prelude::*;
use crate::client::BasicInfo;
use crate::credential::{derive_credential, spec_credential};
use crate::errors::ApiError;
use crate::json::Json;

verus! {

/// The orchestrator's state. Discovery probes the pending candidates in
/// order; when every candidate has failed the machine waits for a manual
/// host and restarts discovery with it alone; a successful probe binds the
/// host and its identity and authentication begins; `Done` is terminal.
pub enum Machine {
    Probing { pending: Vec<String>, idx: usize },
    AwaitingManualHost,
    AwaitingPassword { host: String, info: BasicInfo },
    Submitting { host: String, info: BasicInfo },
    Done,
}

/// What the network or the operator answered to the last action.
pub enum Event {
    ProbeSucceeded(BasicInfo),
    ProbeFailed(ApiError),
    ManualHostEntered(String),
    PasswordEntered(String),
    EnableSucceeded(Json),
    EnableFailed(ApiError),
}

/// What the surrounding program must do next.
pub enum Action {
    /// Request the identity of this host and report the classified result.
    Probe(String),
    /// Ask the operator for a host, once.
    PromptManualHost,
    /// Ask the operator for this host's password.
    PromptPassword(String),
    /// Submit the credential to the host: `(host, credential)`.
    SubmitCredential(String, String),
    /// Pause for acknowledgment and exit.
    Finish,
}

/// A state that can stand: the probe index stays inside the list.
pub open spec fn wf(m: Machine) -> bool {
    match m {
        Machine::Probing { pending, idx } => idx < pending.len(),
        _ => true,
    }
}

/// Whether an event is of the kind the state waits for.
pub open spec fn expects(m: Machine, ev: Event) -> bool {
    match m {
        Machine::Probing { .. } => ev is ProbeSucceeded || ev is ProbeFailed,
        Machine::AwaitingManualHost => ev is ManualHostEntered,
        Machine::AwaitingPassword { .. } => ev is PasswordEntered,
        Machine::Submitting { .. } => ev is EnableSucceeded || ev is EnableFailed,
        Machine::Done => false,
    }
}

/// The full transition relation of the orchestrator: how one step must
/// relate the old state, the event, the new state and the action.
pub open spec fn step_ok(pre: Machine, ev: Event, post: Machine, act: Action) -> bool {
    match pre {
        Machine::Probing { pending, idx } => match ev {
            Event::ProbeSucceeded(info) => {
                &&& post matches Machine::AwaitingPassword { host, info: kept }
                    && host@ == pending.deep_view()[idx as int] && kept@ == info@
                &&& act matches Action::PromptPassword(h) && h@ == pending.deep_view()[idx as int]
            },
            Event::ProbeFailed(_) => if idx + 1 < pending.len() {
                &&& post matches Machine::Probing { pending: p2, idx: i2 }
                    && p2.deep_view() == pending.deep_view() && i2 == idx + 1
                &&& act matches Action::Probe(h) && h@ == pending.deep_view()[idx as int + 1]
            } else {
                post is AwaitingManualHost && act is PromptManualHost
            },
            _ => false,
        },
        Machine::AwaitingManualHost => match ev {
            Event::ManualHostEntered(h) => {
                &&& post matches Machine::Probing { pending, idx }
                    && pending.deep_view() == seq![h@] && idx == 0
                &&& act matches Action::Probe(h2) && h2@ == h@
            },
            _ => false,
        },
        Machine::AwaitingPassword { host, info } => match ev {
            Event::PasswordEntered(pw) => {
                &&& post matches Machine::Submitting { host: h2, info: i2 } && h2@ == host@
                    && i2@ == info@
                &&& act matches Action::SubmitCredential(h3, cred) && h3@ == host@ && cred@
                    == spec_credential(info.sn@, info.mac@, pw@)
            },
            _ => false,
        },
        Machine::Submitting { host, info } => match ev {
            Event::EnableSucceeded(_) => post is Done && act is Finish,
            Event::EnableFailed(_) => {
                &&& post matches Machine::AwaitingPassword { host: h2, info: i2 } && h2@
                    == host@ && i2@ == info@
                &&& act matches Action::PromptPassword(h3) && h3@ == host@
            },
            _ => false,
        },
        Machine::Done => false,
    }
}

/// Enters discovery over an ordered candidate list. An empty list goes
/// straight to manual-host escalation.
pub fn start(candidates: Vec<String>) -> (r: (Machine, Action))
    ensures
        wf(r.0),
        candidates.len() == 0 ==> r.0 is AwaitingManualHost && r.1 is PromptManualHost,
        candidates.len() > 0 ==> {
            &&& r.0 matches Machine::Probing { pending, idx } && pending.deep_view()
                == candidates.deep_view() && idx == 0
            &&& r.1 matches Action::Probe(h) && h@ == candidates.deep_view()[0]
        },
{
    if candidates.len() == 0 {
        (Machine::AwaitingManualHost, Action::PromptManualHost)
    } else {
        let first = candidates[0].clone();
        (Machine::Probing { pending: candidates, idx: 0 }, Action::Probe(first))
    }
}

/// One transition of the orchestrator: consumes the event the state waits
/// for and yields the next state and the next action.
pub fn step(m: Machine, ev: Event) -> (r: (Machine, Action))
    requires
        wf(m),
        expects(m, ev),
    ensures
        wf(r.0),
        step_ok(m, ev, r.0, r.1),
{
    match m {
        Machine::Probing { pending, idx } => match ev {
            Event::ProbeSucceeded(info) => {
                let host = pending[idx].clone();
                let prompt_host = host.clone();
                (
                    Machine::AwaitingPassword { host, info },
                    Action::PromptPassword(prompt_host),
                )
            },
            Event::ProbeFailed(_) => {
                if idx + 1 < pending.len() {
                    let next = pending[idx + 1].clone();
                    (Machine::Probing { pending, idx: idx + 1 }, Action::Probe(next))
                } else {
                    (Machine::AwaitingManualHost, Action::PromptManualHost)
                }
            },
            _ => unreached(),
        },
        Machine::AwaitingManualHost => match ev {
            Event::ManualHostEntered(h) => {
                let probe_host = h.clone();
                let mut pending: Vec<String> = Vec::new();
                pending.push(h);
                proof {
                    assert(pending.deep_view() =~= seq![probe_host@]);
                }
                (Machine::Probing { pending, idx: 0 }, Action::Probe(probe_host))
            },
            _ => unreached(),
        },
        Machine::AwaitingPassword { host, info } => match ev {
            Event::PasswordEntered(pw) => {
                let cred = derive_credential(info.sn.as_str(), info.mac.as_str(), pw.as_str());
                let submit_host = host.clone();
                (
                    Machine::Submitting { host, info },
                    Action::SubmitCredential(submit_host, cred),
                )
            },
            _ => unreached(),
        },
        Machine::Submitting { host, info } => match ev {
            Event::EnableSucceeded(_) => (Machine::Done, Action::Finish),
            Event::EnableFailed(_) => {
                let prompt_host = host.clone();
                (
                    Machine::AwaitingPassword { host, info },
                    Action::PromptPassword(prompt_host),
                )
            },
            _ => unreached(),
        },
        Machine::Done => unreached(),
    }
}

/// Whether an event is of the kind the state waits for, as executable code.
pub fn event_fits(m: &Machine, ev: &Event) -> (r: bool)
    ensures
        r == expects(*m, *ev),
{
    match m {
        Machine::Probing { .. } => matches!(ev, Event::ProbeSucceeded(_) | Event::ProbeFailed(_)),
        Machine::AwaitingManualHost => matches!(ev, Event::ManualHostEntered(_)),
        Machine::AwaitingPassword { .. } => matches!(ev, Event::PasswordEntered(_)),
        Machine::Submitting { .. } => matches!(
            ev,
            Event::EnableSucceeded(_) | Event::EnableFailed(_),
        ),
        Machine::Done => false,
    }
}

/// Law: the machine reaches `Done` exactly from a submission answered with
/// a success envelope; no error variant ever completes authentication.
pub proof fn lemma_done_only_on_success(pre: Machine, ev: Event, post: Machine, act: Action)
    requires
        step_ok(pre, ev, post, act),
    ensures
        post is Done <==> (pre is Submitting && ev is EnableSucceeded),
{
}

/// Law: a discovery pass never goes back: while the machine stays in
/// `Probing`, the candidate list is unchanged and the index advances by
/// exactly one, so no candidate is probed twice within a pass.
pub proof fn lemma_no_reprobe(pre: Machine, ev: Event, post: Machine, act: Action)
    requires
        step_ok(pre, ev, post, act),
    ensures
        pre matches Machine::Probing { pending: p1, idx: i1 } ==> (post matches
            Machine::Probing { pending: p2, idx: i2 } ==> p2.deep_view() == p1.deep_view()
            && i2 == i1 + 1),
{
}

/// Law: the operator is asked for a manual host exactly when the last
/// candidate of a discovery pass has failed, and the entered host alone
/// restarts discovery from its beginning.
pub proof fn lemma_manual_escalation(pre: Machine, ev: Event, post: Machine, act: Action)
    requires
        step_ok(pre, ev, post, act),
    ensures
        act is PromptManualHost <==> (pre matches Machine::Probing { pending, idx } && ev
            is ProbeFailed && idx + 1 >= pending.len()),
        pre is AwaitingManualHost ==> (ev matches Event::ManualHostEntered(h) && post
            matches Machine::Probing { pending, idx } && pending.deep_view() == seq![h@]
            && idx == 0),
{
}

} // verus!

