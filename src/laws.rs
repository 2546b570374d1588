use vstd::prelude::*;
use vstd::set_lib::lemma_len_subset;
use crate::machine::{
    execute_check, execute_step, expire_step, sign_check, sign_step, status_may_follow,
};
use crate::model::{MultisigError, PolicyView, ProposalStatus, ProposalView};
use crate::registry::RegistryView;

verus! {

/// Every policy held by a well-formed registry has `1 <= threshold <= signers.len()`.
pub proof fn lemma_policy_threshold_bounded(reg: RegistryView, i: int)
    requires
        reg.wf(),
        0 <= i < reg.policies.len(),
    ensures
        1 <= reg.policies[i].threshold <= reg.policies[i].signers.len(),
{
}

/// A sequence without duplicates whose elements all occur in `b` is no longer than `b`.
pub proof fn lemma_distinct_subseq_len(a: Seq<Seq<char>>, b: Seq<Seq<char>>)
    requires
        a.no_duplicates(),
        forall|k: int| 0 <= k < a.len() ==> b.contains(#[trigger] a[k]),
    ensures
        a.len() <= b.len(),
{
    a.unique_seq_to_set();
    b.lemma_cardinality_of_set();
    assert(a.to_set().subset_of(b.to_set())) by {
        assert forall|x: Seq<char>| a.to_set().contains(x) implies b.to_set().contains(x) by {
            let k = choose|k: int| 0 <= k < a.len() && a[k] == x;
            assert(b.contains(a[k]));
        }
    }
    lemma_len_subset(a.to_set(), b.to_set());
}

/// In a well-formed registry no proposal holds two signatures by one signer, and no
/// proposal has more signers than its policy.
pub proof fn lemma_signers_distinct_and_bounded(reg: RegistryView, j: int)
    requires
        reg.wf(),
        0 <= j < reg.proposals.len(),
    ensures
        reg.proposals[j].signers().no_duplicates(),
        reg.proposals[j].signers().len() <= reg.policies[reg.proposals[j].policy_id as int].signers.len(),
{
    let p = reg.proposals[j];
    let pol = reg.policies[p.policy_id as int];
    lemma_distinct_subseq_len(p.signers(), pol.signers);
}

/// Executing twice: at most one of the two calls succeeds, and when the first does, the
/// second fails with `AlreadyExecuted` and changes nothing.
pub proof fn lemma_execute_at_most_once(p: ProposalView, first: u64, second: u64)
    ensures
        ({
            let p1 = execute_step(p, first);
            &&& !(execute_check(p, first) is Ok && execute_check(p1, second) is Ok)
            &&& execute_check(p, first) is Ok ==> {
                &&& p1.status == ProposalStatus::Executed
                &&& execute_check(p1, second) == Err::<(), MultisigError>(
                    MultisigError::AlreadyExecuted,
                )
                &&& execute_step(p1, second) == p1
            }
        }),
{
}

/// Observed statuses only move along `Pending -> Approved -> Executed` or
/// `Pending -> Expired`, and this order is transitive. An approved proposal that reaches
/// its deadline becomes expired, which this order does not cover: such calls are excluded.
pub proof fn lemma_status_monotonic(
    p: ProposalView,
    pol: PolicyView,
    signer: Seq<char>,
    data: Option<Seq<char>>,
    now: u64,
)
    requires
        !(p.status == ProposalStatus::Approved && now >= p.expires_at),
    ensures
        status_may_follow(p.status, sign_step(p, pol, signer, data, now).status),
        status_may_follow(p.status, execute_step(p, now).status),
        status_may_follow(p.status, expire_step(p, now).status),
{
}

/// Without any exclusion, a call never moves a status backward: beyond the order above, the
/// one other move is an approved proposal that expires at its deadline.
pub proof fn lemma_status_never_backward(
    p: ProposalView,
    pol: PolicyView,
    signer: Seq<char>,
    data: Option<Seq<char>>,
    now: u64,
)
    ensures
        ({
            let moves = |b: ProposalStatus|
                status_may_follow(p.status, b) || (p.status == ProposalStatus::Approved && b
                    == ProposalStatus::Expired && now >= p.expires_at);
            &&& moves(sign_step(p, pol, signer, data, now).status)
            &&& moves(execute_step(p, now).status)
            &&& moves(expire_step(p, now).status)
        }),
{
}

/// The order of observed statuses is transitive, so it holds along any run of calls.
pub proof fn lemma_status_may_follow_transitive(
    a: ProposalStatus,
    b: ProposalStatus,
    c: ProposalStatus,
)
    requires
        status_may_follow(a, b),
        status_may_follow(b, c),
    ensures
        status_may_follow(a, c),
{
}

/// Once `now >= expires_at`, neither signing nor executing succeeds, whatever the
/// signatures, and neither changes the deadline; so every later call fails as well.
pub proof fn lemma_expiry_dominance(
    p: ProposalView,
    pol: PolicyView,
    signer: Seq<char>,
    data: Option<Seq<char>>,
    now: u64,
)
    requires
        now >= p.expires_at,
    ensures
        sign_check(p, pol, signer, now) is Err,
        execute_check(p, now) is Err,
        sign_step(p, pol, signer, data, now).expires_at == p.expires_at,
        execute_step(p, now).expires_at == p.expires_at,
        expire_step(p, now).expires_at == p.expires_at,
{
}

/// One call that acts on a proposal, with the time at which it is made: a signature, an
/// execution, or a read (`proposal_info` or `sweep_expired`).
pub enum ProposalCall {
    Sign { signer: Seq<char>, data: Option<Seq<char>>, now: u64 },
    Execute { now: u64 },
    Read { now: u64 },
}

impl ProposalCall {
    pub open spec fn time(self) -> u64 {
        match self {
            ProposalCall::Sign { now, .. } => now,
            ProposalCall::Execute { now } => now,
            ProposalCall::Read { now } => now,
        }
    }
}

/// The proposal after one call, as `sign`, `execute`, `proposal_info` and `sweep_expired`
/// leave it.
pub open spec fn apply_call(p: ProposalView, pol: PolicyView, c: ProposalCall) -> ProposalView {
    match c {
        ProposalCall::Sign { signer, data, now } => sign_step(p, pol, signer, data, now),
        ProposalCall::Execute { now } => execute_step(p, now),
        ProposalCall::Read { now } => expire_step(p, now),
    }
}

/// The proposal after a run of calls, in order.
pub open spec fn apply_calls(p: ProposalView, pol: PolicyView, calls: Seq<ProposalCall>) -> ProposalView
    decreases calls.len(),
{
    if calls.len() == 0 {
        p
    } else {
        apply_call(apply_calls(p, pol, calls.drop_last()), pol, calls.last())
    }
}

/// The status order with the one further move the lifecycle allows: an approved proposal
/// that expires.
pub open spec fn status_progresses(a: ProposalStatus, b: ProposalStatus) -> bool {
    status_may_follow(a, b) || (a == ProposalStatus::Approved && b == ProposalStatus::Expired)
}

/// Over any run of calls the status never moves backward: the last status follows the first
/// along `Pending -> Approved -> Executed`, `Pending -> Expired` or `Approved -> Expired`.
pub proof fn lemma_status_never_backward_over_calls(
    p: ProposalView,
    pol: PolicyView,
    calls: Seq<ProposalCall>,
)
    ensures
        status_progresses(p.status, apply_calls(p, pol, calls).status),
    decreases calls.len(),
{
    if calls.len() > 0 {
        lemma_status_never_backward_over_calls(p, pol, calls.drop_last());
        let q = apply_calls(p, pol, calls.drop_last());
        match calls.last() {
            ProposalCall::Sign { signer, data, now } => {
                lemma_status_never_backward(q, pol, signer, data, now);
            },
            ProposalCall::Execute { now } => {
                lemma_status_never_backward(q, pol, Seq::empty(), None, now);
            },
            ProposalCall::Read { now } => {
                lemma_status_never_backward(q, pol, Seq::empty(), None, now);
            },
        }
    }
}

/// Over any run of calls in which no call reaches an approved proposal at or after its
/// deadline, the observed statuses follow `Pending -> Approved -> Executed` or
/// `Pending -> Expired`.
pub proof fn lemma_status_monotonic_over_calls(
    p: ProposalView,
    pol: PolicyView,
    calls: Seq<ProposalCall>,
)
    requires
        forall|k: int|
            0 <= k < calls.len() ==> {
                let q = #[trigger] apply_calls(p, pol, calls.subrange(0, k));
                !(q.status == ProposalStatus::Approved && calls[k].time() >= q.expires_at)
            },
    ensures
        status_may_follow(p.status, apply_calls(p, pol, calls).status),
    decreases calls.len(),
{
    if calls.len() > 0 {
        let init = calls.drop_last();
        assert forall|k: int| 0 <= k < init.len() implies {
            let q = #[trigger] apply_calls(p, pol, init.subrange(0, k));
            !(q.status == ProposalStatus::Approved && init[k].time() >= q.expires_at)
        } by {
            assert(init.subrange(0, k) =~= calls.subrange(0, k));
            assert(init[k] == calls[k]);
            assert(apply_calls(p, pol, calls.subrange(0, k)) == apply_calls(p, pol, init.subrange(0, k)));
        }
        lemma_status_monotonic_over_calls(p, pol, init);
        let q = apply_calls(p, pol, init);
        let k = calls.len() - 1;
        assert(calls.subrange(0, k) =~= init);
        assert(apply_calls(p, pol, calls.subrange(0, k)) == q);
        match calls.last() {
            ProposalCall::Sign { signer, data, now } => {
                lemma_status_monotonic(q, pol, signer, data, now);
            },
            ProposalCall::Execute { now } => {
                lemma_status_monotonic(q, pol, Seq::empty(), None, now);
            },
            ProposalCall::Read { now } => {
                lemma_status_monotonic(q, pol, Seq::empty(), None, now);
            },
        }
        lemma_status_may_follow_transitive(p.status, q.status, apply_calls(p, pol, calls).status);
    }
}

} // verus!
