use vstd::prelude::*;
use crate::model::{
    MultisigError, Policy, PolicyView, ProposalStatus, ProposalView, Signature, SignatureView,
    signature_views, signers_of, string_views,
};

verus! {

/// How many of `sigs` were made by an address in `signers`.
pub open spec fn count_authorized(sigs: Seq<Seq<char>>, signers: Seq<Seq<char>>) -> nat
    decreases sigs.len(),
{
    if sigs.len() == 0 {
        0
    } else {
        count_authorized(sigs.drop_last(), signers) + if signers.contains(sigs.last()) {
            1nat
        } else {
            0nat
        }
    }
}

/// When every signature comes from an authorized address, all of them count.
pub proof fn lemma_count_all_authorized(sigs: Seq<Seq<char>>, signers: Seq<Seq<char>>)
    requires
        forall|k: int| 0 <= k < sigs.len() ==> signers.contains(#[trigger] sigs[k]),
    ensures
        count_authorized(sigs, signers) == sigs.len(),
    decreases sigs.len(),
{
    if sigs.len() > 0 {
        let rest = sigs.drop_last();
        assert forall|k: int| 0 <= k < rest.len() implies signers.contains(#[trigger] rest[k]) by {
            assert(rest[k] == sigs[k]);
        }
        lemma_count_all_authorized(rest, signers);
        assert(signers.contains(sigs[sigs.len() - 1]));
    }
}

/// Whether `s` occurs in `v`.
pub fn contains_address(v: &Vec<String>, s: &String) -> (r: bool)
    ensures
        r == string_views(v@).contains(s@),
{
    let mut i: usize = 0;
    while i < v.len()
        invariant
            i <= v@.len(),
            forall|j: int| 0 <= j < i ==> v@[j]@ != s@,
        decreases v@.len() - i,
    {
        if v[i] == *s {
            assert(string_views(v@)[i as int] == s@);
            return true;
        }
        i += 1;
    }
    assert(!string_views(v@).contains(s@)) by {
        assert forall|j: int| 0 <= j < string_views(v@).len() implies string_views(v@)[j]
            != s@ by {
            assert(string_views(v@)[j] == v@[j]@);
        }
    }
    false
}

/// Whether `s` has already signed among `sigs`.
pub fn signed_by(sigs: &Vec<Signature>, s: &String) -> (r: bool)
    ensures
        r == signers_of(signature_views(sigs@)).contains(s@),
{
    let ghost sv = signers_of(signature_views(sigs@));
    let mut i: usize = 0;
    while i < sigs.len()
        invariant
            i <= sigs@.len(),
            sv == signers_of(signature_views(sigs@)),
            forall|j: int| 0 <= j < i ==> sv[j] != s@,
        decreases sigs@.len() - i,
    {
        assert(sv[i as int] == sigs@[i as int].signer@);
        if sigs[i].signer == *s {
            return true;
        }
        i += 1;
    }
    false
}

/// The threshold evaluator: whether the signatures by addresses of the policy reach its
/// threshold.
pub fn threshold_satisfied(policy: &Policy, signatures: &Vec<Signature>) -> (r: bool)
    ensures
        r == (count_authorized(signers_of(signature_views(signatures@)), policy@.signers)
            >= policy@.threshold),
{
    let ghost sigs = signers_of(signature_views(signatures@));
    let mut count: usize = 0;
    let mut i: usize = 0;
    while i < signatures.len()
        invariant
            i <= signatures@.len(),
            sigs == signers_of(signature_views(signatures@)),
            count as nat == count_authorized(sigs.subrange(0, i as int), policy@.signers),
            count <= i,
        decreases signatures@.len() - i,
    {
        assert(sigs.subrange(0, i + 1).drop_last() =~= sigs.subrange(0, i as int));
        assert(sigs[i as int] == signatures@[i as int].signer@);
        if contains_address(&policy.signers, &signatures[i].signer) {
            count += 1;
        }
        i += 1;
    }
    assert(sigs.subrange(0, i as int) =~= sigs);
    count as u64 >= policy.threshold as u64
}

/// A proposal is overdue when it is not yet final and its deadline has been reached.
pub open spec fn is_overdue(p: ProposalView, now: u64) -> bool {
    !p.status.spec_is_terminal() && now >= p.expires_at
}

/// The lazy expiry check that precedes every mutation.
pub open spec fn expire_step(p: ProposalView, now: u64) -> ProposalView {
    if is_overdue(p, now) {
        ProposalView { status: ProposalStatus::Expired, ..p }
    } else {
        p
    }
}

/// Whether a signature by `signer` at time `now` is accepted, and if not, why.
pub open spec fn sign_check(p: ProposalView, pol: PolicyView, signer: Seq<char>, now: u64) -> Result<
    (),
    MultisigError,
> {
    if is_overdue(p, now) {
        Err(MultisigError::Expired)
    } else if p.status.spec_is_terminal() {
        Err(MultisigError::Terminal)
    } else if !pol.signers.contains(signer) {
        Err(MultisigError::Unauthorized)
    } else if p.signers().contains(signer) {
        Err(MultisigError::DuplicateSignature)
    } else {
        Ok(())
    }
}

/// The proposal after a signing attempt: the signature is appended when accepted, and a
/// pending proposal whose threshold is newly met becomes approved.
pub open spec fn sign_step(
    p: ProposalView,
    pol: PolicyView,
    signer: Seq<char>,
    data: Option<Seq<char>>,
    now: u64,
) -> ProposalView {
    if sign_check(p, pol, signer, now) is Ok {
        let q = ProposalView {
            signatures: p.signatures.push(
                SignatureView { proposal_id: p.id, signer, signature_data: data, signed_at: now },
            ),
            ..p
        };
        if p.status == ProposalStatus::Pending && count_authorized(q.signers(), pol.signers)
            >= pol.threshold {
            ProposalView { status: ProposalStatus::Approved, ..q }
        } else {
            q
        }
    } else {
        expire_step(p, now)
    }
}

/// Whether an execution at time `now` is allowed, and if not, why.
pub open spec fn execute_check(p: ProposalView, now: u64) -> Result<(), MultisigError> {
    if is_overdue(p, now) || p.status == ProposalStatus::Expired {
        Err(MultisigError::Expired)
    } else if p.status == ProposalStatus::Executed {
        Err(MultisigError::AlreadyExecuted)
    } else if p.status != ProposalStatus::Approved {
        Err(MultisigError::NotApproved)
    } else {
        Ok(())
    }
}

/// The proposal after an execution attempt.
pub open spec fn execute_step(p: ProposalView, now: u64) -> ProposalView {
    if execute_check(p, now) is Ok {
        ProposalView { status: ProposalStatus::Executed, ..p }
    } else {
        expire_step(p, now)
    }
}

/// The order in which statuses may be observed: along `Pending -> Approved -> Executed`,
/// or `Pending -> Expired`.
pub open spec fn status_may_follow(a: ProposalStatus, b: ProposalStatus) -> bool {
    ||| a == b
    ||| (a == ProposalStatus::Pending && (b == ProposalStatus::Approved || b
        == ProposalStatus::Executed || b == ProposalStatus::Expired))
    ||| (a == ProposalStatus::Approved && b == ProposalStatus::Executed)
}

} // verus!
