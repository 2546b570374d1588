use vstd::prelude::*;
use crate::address::is_valid_address;
use crate::parse::{parse_network, spec_network_of};
use crate::machine::{
    contains_address, execute_check, execute_step, expire_step, lemma_count_all_authorized,
    sign_check, sign_step, signed_by, threshold_satisfied,
};
use crate::model::{
    distinct, lemma_distinct, opt_string_view, string_views, valid_policy_request, MultisigError, Network, Policy,
    PolicyView, Proposal, ProposalStatus, ProposalView, Signature, SignatureView,
};

verus! {

/// Lifetime of a proposal, in seconds, when its policy names none (24 hours).
pub const DEFAULT_EXPIRY_SECS: u64 = 86400;

/// Deadline `now + lifetime`, held at the largest time when the sum does not fit.
pub open spec fn deadline(now: u64, lifetime: u64) -> u64 {
    if now as int + lifetime as int > u64::MAX as int {
        u64::MAX
    } else {
        (now + lifetime) as u64
    }
}

/// Whether every entry of a signer list is a well-formed address.
fn all_valid_addresses(signers: &Vec<String>) -> (r: bool)
    ensures
        r == forall|i: int|
            0 <= i < signers@.len() ==> crate::address::spec_valid_address(
                #[trigger] string_views(signers@)[i],
            ),
{
    let mut i: usize = 0;
    while i < signers.len()
        invariant
            i <= signers@.len(),
            forall|k: int|
                0 <= k < i ==> crate::address::spec_valid_address(
                    #[trigger] string_views(signers@)[k],
                ),
        decreases signers@.len() - i,
    {
        assert(string_views(signers@)[i as int] == signers@[i as int]@);
        if !is_valid_address(signers[i].as_str()) {
            return false;
        }
        i += 1;
    }
    true
}

/// The signer list without repeats, each address at its first occurrence.
fn distinct_addresses(signers: &Vec<String>) -> (r: Vec<String>)
    ensures
        string_views(r@) == distinct(string_views(signers@)),
{
    let ghost sv = string_views(signers@);
    let mut r: Vec<String> = Vec::new();
    let mut i: usize = 0;
    assert(sv.subrange(0, 0) =~= Seq::<Seq<char>>::empty());
    assert(string_views(r@) =~= Seq::<Seq<char>>::empty());
    while i < signers.len()
        invariant
            i <= signers@.len(),
            sv == string_views(signers@),
            string_views(r@) == distinct(sv.subrange(0, i as int)),
        decreases signers@.len() - i,
    {
        let ghost prefix = sv.subrange(0, i + 1);
        assert(prefix.drop_last() =~= sv.subrange(0, i as int));
        assert(prefix.last() == signers@[i as int]@);
        if !contains_address(&r, &signers[i]) {
            let ghost before = string_views(r@);
            r.push(signers[i].clone());
            assert(string_views(r@) =~= before.push(sv[i as int]));
        }
        i += 1;
    }
    assert(sv.subrange(0, signers@.len() as int) =~= sv);
    r
}

/// What a proposal gathered under `pol` always satisfies: distinct authorized signers, and a
/// status that agrees with the signature count.
pub open spec fn proposal_fits(p: ProposalView, pol: PolicyView) -> bool {
    &&& p.signers().no_duplicates()
    &&& forall|k: int| 0 <= k < p.signers().len() ==> pol.signers.contains(#[trigger] p.signers()[k])
    &&& forall|k: int| 0 <= k < p.signatures.len() ==> (#[trigger] p.signatures[k]).proposal_id == p.id
    &&& p.status == ProposalStatus::Pending ==> p.signatures.len() < pol.threshold
    &&& (p.status == ProposalStatus::Approved || p.status == ProposalStatus::Executed)
        ==> p.signatures.len() >= pol.threshold
}

/// Whether a proposal passes the optional status filter of a listing.
pub open spec fn status_matches(p: ProposalView, status: Option<ProposalStatus>) -> bool {
    match status {
        Some(st) => p.status == st,
        None => true,
    }
}

/// The proposals that pass the filter, newest (highest id) first.
pub open spec fn newest_first(ps: Seq<ProposalView>, status: Option<ProposalStatus>) -> Seq<
    ProposalView,
>
    decreases ps.len(),
{
    if ps.len() == 0 {
        Seq::empty()
    } else {
        let rest = newest_first(ps.drop_first(), status);
        if status_matches(ps[0], status) {
            rest.push(ps[0])
        } else {
            rest
        }
    }
}

/// The entries of `s` from position `offset` on, at most `limit` of them.
pub open spec fn page_of<T>(s: Seq<T>, offset: int, limit: int) -> Seq<T> {
    let start = if offset < s.len() { offset } else { s.len() as int };
    let end = if start + limit < s.len() { start + limit } else { s.len() as int };
    s.subrange(start, end)
}

/// The abstract content of a registry: policies and proposals, each indexed by its id.
pub struct RegistryView {
    pub policies: Seq<PolicyView>,
    pub proposals: Seq<ProposalView>,
}

impl RegistryView {
    pub open spec fn wf(self) -> bool {
        &&& forall|i: int|
            0 <= i < self.policies.len() ==> (#[trigger] self.policies[i]).wf()
                && self.policies[i].id == i
        &&& forall|j: int|
            0 <= j < self.proposals.len() ==> {
                let p = #[trigger] self.proposals[j];
                &&& p.id == j
                &&& p.policy_id < self.policies.len()
                &&& proposal_fits(p, self.policies[p.policy_id as int])
            }
    }
}

/// The policy and proposal stores of the approval engine.
pub struct Registry {
    policies: Vec<Policy>,
    proposals: Vec<Proposal>,
}

/// A proposal together with the policy that governs it.
pub struct ProposalInfo {
    pub proposal: Proposal,
    pub policy: Policy,
}

/// What an execution hands to the deployment step.
pub struct ExecutionResult {
    pub proposal_id: u64,
    pub contract_id: String,
    pub wasm_hash: String,
    pub network: Network,
}

impl View for Registry {
    type V = RegistryView;

    closed spec fn view(&self) -> RegistryView {
        RegistryView {
            policies: self.policies@.map_values(|p: Policy| p@),
            proposals: self.proposals@.map_values(|p: Proposal| p@),
        }
    }
}

impl Registry {
    pub open spec fn wf(&self) -> bool {
        self@.wf()
    }

    pub fn new() -> (r: Registry)
        ensures
            r.wf(),
            r@.policies.len() == 0,
            r@.proposals.len() == 0,
    {
        let r = Registry { policies: Vec::new(), proposals: Vec::new() };
        assert(r@.policies =~= Seq::<PolicyView>::empty());
        assert(r@.proposals =~= Seq::<ProposalView>::empty());
        r
    }

    /// Creates a policy. The signers form a set: repeats are dropped. Fails with
    /// `InvalidPolicy` when the list is empty, an entry is not a well-formed address, or the
    /// threshold is below one or above the number of distinct signers.
    pub fn create_policy(
        &mut self,
        name: String,
        threshold: u32,
        signers: Vec<String>,
        expiry_secs: Option<u64>,
        created_by: String,
        now: u64,
    ) -> (r: Result<Policy, MultisigError>)
        requires
            old(self).wf(),
        ensures
            final(self).wf(),
            final(self)@.proposals == old(self)@.proposals,
            r is Ok <==> valid_policy_request(threshold as nat, string_views(signers@)),
            match r {
                Ok(p) => {
                    &&& p@ == (PolicyView {
                        id: old(self)@.policies.len() as u64,
                        name: name@,
                        threshold: threshold as nat,
                        signers: distinct(string_views(signers@)),
                        default_expiry: match expiry_secs {
                            Some(e) => e,
                            None => DEFAULT_EXPIRY_SECS,
                        },
                        created_by: created_by@,
                        created_at: now,
                    })
                    &&& p@.signers.no_duplicates()
                    &&& p@.signers.to_set() == string_views(signers@).to_set()
                    &&& final(self)@.policies == old(self)@.policies.push(p@)
                },
                Err(e) => {
                    &&& e == MultisigError::InvalidPolicy
                    &&& final(self)@.policies == old(self)@.policies
                },
            },
    {
        proof {
            lemma_distinct(string_views(signers@));
        }
        if signers.len() == 0 || !all_valid_addresses(&signers) {
            return Err(MultisigError::InvalidPolicy);
        }
        let ghost requested = string_views(signers@);
        let signers = distinct_addresses(&signers);
        if threshold < 1 || threshold as usize > signers.len() {
            return Err(MultisigError::InvalidPolicy);
        }
        proof {
            let d = string_views(signers@);
            assert forall|i: int| 0 <= i < d.len() implies crate::address::spec_valid_address(
                #[trigger] d[i],
            ) by {
                assert(requested.contains(d[i]));
            }
        }
        let default_expiry = match expiry_secs {
            Some(e) => e,
            None => DEFAULT_EXPIRY_SECS,
        };
        let policy = Policy {
            id: self.policies.len() as u64,
            name,
            threshold,
            signers,
            default_expiry,
            created_by,
            created_at: now,
        };
        let out = policy.copy();
        let ghost old_view = self@;
        self.policies.push(policy);
        assert(self@.policies =~= old_view.policies.push(out@));
        assert(self@.proposals =~= old_view.proposals);
        Ok(out)
    }

    /// The policy with the given id.
    pub fn get_policy(&self, id: u64) -> (r: Result<Policy, MultisigError>)
        ensures
            r is Ok <==> id < self@.policies.len(),
            match r {
                Ok(p) => p@ == self@.policies[id as int],
                Err(e) => e == MultisigError::NotFound,
            },
    {
        if id >= self.policies.len() as u64 {
            return Err(MultisigError::NotFound);
        }
        Ok(self.policies[id as usize].copy())
    }

    /// Creates a pending proposal under an existing policy. It expires at `expires_at` when
    /// given, else `default_expiry` seconds after `now`.
    pub fn create_proposal(
        &mut self,
        contract_name: String,
        contract_id: String,
        wasm_hash: String,
        network: &str,
        policy_id: u64,
        proposer: String,
        description: Option<String>,
        expires_at: Option<u64>,
        now: u64,
    ) -> (r: Result<Proposal, MultisigError>)
        requires
            old(self).wf(),
        ensures
            final(self).wf(),
            final(self)@.policies == old(self)@.policies,
            policy_id >= old(self)@.policies.len() ==> r == Err::<Proposal, MultisigError>(
                MultisigError::NotFound,
            ),
            policy_id < old(self)@.policies.len() && spec_network_of(network@) is None ==> r
                == Err::<Proposal, MultisigError>(MultisigError::InvalidNetwork),
            r is Ok <==> policy_id < old(self)@.policies.len() && spec_network_of(network@) is Some,
            match r {
                Ok(p) => {
                    &&& p@ == (ProposalView {
                        id: old(self)@.proposals.len() as u64,
                        policy_id,
                        contract_name: contract_name@,
                        contract_id: contract_id@,
                        wasm_hash: wasm_hash@,
                        network: spec_network_of(network@)->Some_0,
                        proposer: proposer@,
                        description: opt_string_view(description),
                        created_at: now,
                        expires_at: match expires_at {
                            Some(t) => t,
                            None => deadline(
                                now,
                                old(self)@.policies[policy_id as int].default_expiry,
                            ),
                        },
                        status: ProposalStatus::Pending,
                        signatures: Seq::empty(),
                    })
                    &&& final(self)@.proposals == old(self)@.proposals.push(p@)
                },
                Err(_) => final(self)@.proposals == old(self)@.proposals,
            },
    {
        if policy_id >= self.policies.len() as u64 {
            return Err(MultisigError::NotFound);
        }
        let net = match parse_network(network) {
            Ok(n) => n,
            Err(e) => {
                return Err(e);
            },
        };
        let lifetime = self.policies[policy_id as usize].default_expiry;
        let deadline_at = match expires_at {
            Some(t) => t,
            None => if lifetime > u64::MAX - now {
                u64::MAX
            } else {
                now + lifetime
            },
        };
        let proposal = Proposal {
            id: self.proposals.len() as u64,
            policy_id,
            contract_name,
            contract_id,
            wasm_hash,
            network: net,
            proposer,
            description,
            created_at: now,
            expires_at: deadline_at,
            status: ProposalStatus::Pending,
            signatures: Vec::new(),
        };
        let out = proposal.copy();
        let ghost old_view = self@;
        proof {
            assert(out@.signatures =~= Seq::empty());
            assert(out@.signers() =~= Seq::empty());
        }
        self.proposals.push(proposal);
        assert(self@.proposals =~= old_view.proposals.push(out@));
        assert(self@.policies =~= old_view.policies);
        Ok(out)
    }

    /// Records a signature on a proposal. Overdue proposals are marked expired first and
    /// refuse the signature; a pending proposal becomes approved once its threshold is met.
    pub fn sign(
        &mut self,
        proposal_id: u64,
        signer: String,
        signature_data: Option<String>,
        now: u64,
    ) -> (r: Result<Proposal, MultisigError>)
        requires
            old(self).wf(),
        ensures
            final(self).wf(),
            final(self)@.policies == old(self)@.policies,
            proposal_id >= old(self)@.proposals.len() ==> {
                &&& r == Err::<Proposal, MultisigError>(MultisigError::NotFound)
                &&& final(self)@.proposals == old(self)@.proposals
            },
            proposal_id < old(self)@.proposals.len() ==> {
                let p = old(self)@.proposals[proposal_id as int];
                let pol = old(self)@.policies[p.policy_id as int];
                let q = sign_step(p, pol, signer@, opt_string_view(signature_data), now);
                &&& final(self)@.proposals == old(self)@.proposals.update(proposal_id as int, q)
                &&& match r {
                    Ok(out) => sign_check(p, pol, signer@, now) is Ok && out@ == q,
                    Err(e) => sign_check(p, pol, signer@, now) == Err::<(), MultisigError>(e),
                }
            },
    {
        if proposal_id >= self.proposals.len() as u64 {
            return Err(MultisigError::NotFound);
        }
        let idx = proposal_id as usize;
        let ghost old_view = self@;
        let ghost data_view = opt_string_view(signature_data);
        let mut p = self.proposals[idx].copy();
        let ghost p0 = p@;
        assert(p0 == old_view.proposals[idx as int]);
        assert(old_view.proposals.update(idx as int, p0) =~= old_view.proposals);
        if !p.status.is_terminal() && now >= p.expires_at {
            p.status = ProposalStatus::Expired;
            self.proposals.set(idx, p);
            assert(self@.proposals =~= old_view.proposals.update(idx as int, expire_step(p0, now)));
            assert(self@.policies =~= old_view.policies);
            return Err(MultisigError::Expired);
        }
        if p.status.is_terminal() {
            return Err(MultisigError::Terminal);
        }
        assert(p0.policy_id < old_view.policies.len());
        assert(self.policies@.len() == old_view.policies.len());
        assert(proposal_fits(p0, old_view.policies[p0.policy_id as int]));
        let n_policies = self.policies.len();
        assert(p.policy_id < n_policies);
        let pid = p.policy_id as usize;
        let ghost pol = old_view.policies[pid as int];
        assert(self.policies@[pid as int]@ == pol);
        assert(string_views(self.policies@[pid as int].signers@) == pol.signers);
        if !contains_address(&self.policies[pid].signers, &signer) {
            return Err(MultisigError::Unauthorized);
        }
        assert(pol.signers.contains(signer@));
        if signed_by(&p.signatures, &signer) {
            return Err(MultisigError::DuplicateSignature);
        }
        let ghost signer_view = signer@;
        p.signatures.push(Signature { proposal_id, signer, signature_data, signed_at: now });
        assert(p@.signatures =~= p0.signatures.push(
            SignatureView {
                proposal_id: p0.id,
                signer: signer_view,
                signature_data: data_view,
                signed_at: now,
            },
        ));
        assert(p@.signers() =~= p0.signers().push(signer_view));
        proof {
            let ns = p@.signers();
            assert forall|k: int| 0 <= k < ns.len() implies pol.signers.contains(#[trigger] ns[k]) by {
                if k < p0.signers().len() {
                    assert(ns[k] == p0.signers()[k]);
                }
            }
            lemma_count_all_authorized(ns, pol.signers);
        }
        if p.status == ProposalStatus::Pending && threshold_satisfied(
            &self.policies[pid],
            &p.signatures,
        ) {
            p.status = ProposalStatus::Approved;
        }
        let out = p.copy();
        self.proposals.set(idx, p);
        assert(self@.proposals =~= old_view.proposals.update(idx as int, out@));
        assert(self@.policies =~= old_view.policies);
        Ok(out)
    }

    /// Executes an approved proposal, at most once. Overdue proposals are marked expired first
    /// and refuse the execution.
    pub fn execute(&mut self, proposal_id: u64, now: u64) -> (r: Result<
        ExecutionResult,
        MultisigError,
    >)
        requires
            old(self).wf(),
        ensures
            final(self).wf(),
            final(self)@.policies == old(self)@.policies,
            proposal_id >= old(self)@.proposals.len() ==> {
                &&& r == Err::<ExecutionResult, MultisigError>(MultisigError::NotFound)
                &&& final(self)@.proposals == old(self)@.proposals
            },
            proposal_id < old(self)@.proposals.len() ==> {
                let p = old(self)@.proposals[proposal_id as int];
                &&& final(self)@.proposals == old(self)@.proposals.update(
                    proposal_id as int,
                    execute_step(p, now),
                )
                &&& match r {
                    Ok(x) => {
                        &&& execute_check(p, now) is Ok
                        &&& x.proposal_id == proposal_id
                        &&& x.contract_id@ == p.contract_id
                        &&& x.wasm_hash@ == p.wasm_hash
                        &&& x.network == p.network
                    },
                    Err(e) => execute_check(p, now) == Err::<(), MultisigError>(e),
                }
            },
    {
        if proposal_id >= self.proposals.len() as u64 {
            return Err(MultisigError::NotFound);
        }
        let idx = proposal_id as usize;
        let ghost old_view = self@;
        let mut p = self.proposals[idx].copy();
        let ghost p0 = p@;
        assert(p0 == old_view.proposals[idx as int]);
        assert(old_view.proposals.update(idx as int, p0) =~= old_view.proposals);
        if !p.status.is_terminal() && now >= p.expires_at {
            p.status = ProposalStatus::Expired;
            self.proposals.set(idx, p);
            assert(self@.proposals =~= old_view.proposals.update(idx as int, expire_step(p0, now)));
            assert(self@.policies =~= old_view.policies);
            return Err(MultisigError::Expired);
        }
        match p.status {
            ProposalStatus::Expired => {
                return Err(MultisigError::Expired);
            },
            ProposalStatus::Executed => {
                return Err(MultisigError::AlreadyExecuted);
            },
            ProposalStatus::Approved => {},
            _ => {
                return Err(MultisigError::NotApproved);
            },
        }
        p.status = ProposalStatus::Executed;
        let result = ExecutionResult {
            proposal_id,
            contract_id: p.contract_id.clone(),
            wasm_hash: p.wasm_hash.clone(),
            network: p.network,
        };
        self.proposals.set(idx, p);
        assert(self@.proposals =~= old_view.proposals.update(idx as int, execute_step(p0, now)));
        assert(self@.policies =~= old_view.policies);
        Ok(result)
    }

    /// A proposal with its signatures and its policy, read at time `now`: an overdue proposal
    /// is marked expired first, as on every access.
    pub fn proposal_info(&mut self, proposal_id: u64, now: u64) -> (r: Result<
        ProposalInfo,
        MultisigError,
    >)
        requires
            old(self).wf(),
        ensures
            final(self).wf(),
            final(self)@.policies == old(self)@.policies,
            r is Ok <==> proposal_id < old(self)@.proposals.len(),
            proposal_id >= old(self)@.proposals.len() ==> {
                &&& r == Err::<ProposalInfo, MultisigError>(MultisigError::NotFound)
                &&& final(self)@.proposals == old(self)@.proposals
            },
            proposal_id < old(self)@.proposals.len() ==> {
                let p = expire_step(old(self)@.proposals[proposal_id as int], now);
                &&& final(self)@.proposals == old(self)@.proposals.update(proposal_id as int, p)
                &&& r matches Ok(info) && info.proposal@ == p
                    && info.policy@ == old(self)@.policies[p.policy_id as int]
            },
    {
        if proposal_id >= self.proposals.len() as u64 {
            return Err(MultisigError::NotFound);
        }
        let idx = proposal_id as usize;
        let ghost old_view = self@;
        let mut proposal = self.proposals[idx].copy();
        let ghost p0 = proposal@;
        assert(p0 == old_view.proposals[idx as int]);
        assert(old_view.proposals.update(idx as int, p0) =~= old_view.proposals);
        if !proposal.status.is_terminal() && now >= proposal.expires_at {
            proposal.status = ProposalStatus::Expired;
            let stored = proposal.copy();
            self.proposals.set(idx, stored);
            assert(self@.proposals =~= old_view.proposals.update(idx as int, expire_step(p0, now)));
            assert(self@.policies =~= old_view.policies);
        }
        let n_policies = self.policies.len();
        assert(self.policies@.len() == old_view.policies.len());
        assert(proposal.policy_id < n_policies);
        let policy = self.policies[proposal.policy_id as usize].copy();
        assert(self.policies@[proposal.policy_id as int]@ == old_view.policies[proposal.policy_id as int]);
        Ok(ProposalInfo { proposal, policy })
    }

    /// One page of the proposals, newest first, optionally only those with a given status:
    /// the matching proposals after the first `offset` of them, at most `limit`. Listing
    /// resumes where a page ended by passing `offset + limit`.
    pub fn list_proposals(&self, status: Option<ProposalStatus>, offset: usize, limit: usize) -> (r:
        Vec<Proposal>)
        ensures
            r@.map_values(|p: Proposal| p@) == page_of(
                newest_first(self@.proposals, status),
                offset as int,
                limit as int,
            ),
    {
        let ghost ps = self@.proposals;
        let n = self.proposals.len();
        let mut r: Vec<Proposal> = Vec::new();
        let mut matched: usize = 0;
        let mut i: usize = n;
        assert(ps.subrange(n as int, n as int) =~= Seq::<ProposalView>::empty());
        assert(r@.map_values(|p: Proposal| p@) =~= Seq::<ProposalView>::empty());
        while i > 0
            invariant
                i <= n,
                n == ps.len(),
                ps == self@.proposals,
                matched as int == newest_first(ps.subrange(i as int, n as int), status).len(),
                matched <= n - i,
                r@.map_values(|p: Proposal| p@) == page_of(
                    newest_first(ps.subrange(i as int, n as int), status),
                    offset as int,
                    limit as int,
                ),
            decreases i,
        {
            i -= 1;
            let ghost m0 = newest_first(ps.subrange(i + 1, n as int), status);
            let ghost before = r@.map_values(|p: Proposal| p@);
            let ghost s = ps.subrange(i as int, n as int);
            assert(s.drop_first() =~= ps.subrange(i + 1, n as int));
            assert(s[0] == ps[i as int]);
            assert(self.proposals@[i as int]@ == ps[i as int]);
            let keep = match status {
                Some(st) => self.proposals[i].status == st,
                None => true,
            };
            if keep {
                let ghost m1 = m0.push(ps[i as int]);
                if matched >= offset && r.len() < limit {
                    r.push(self.proposals[i].copy());
                    assert(r@.map_values(|p: Proposal| p@) =~= before.push(ps[i as int]));
                    assert(page_of(m1, offset as int, limit as int) =~= page_of(
                        m0,
                        offset as int,
                        limit as int,
                    ).push(ps[i as int]));
                } else {
                    assert(page_of(m1, offset as int, limit as int) =~= page_of(
                        m0,
                        offset as int,
                        limit as int,
                    ));
                }
                matched += 1;
            }
        }
        assert(ps.subrange(0, n as int) =~= ps);
        r
    }

    /// Marks every overdue proposal expired; the housekeeping counterpart of the lazy check.
    pub fn sweep_expired(&mut self, now: u64)
        requires
            old(self).wf(),
        ensures
            final(self).wf(),
            final(self)@.policies == old(self)@.policies,
            final(self)@.proposals.len() == old(self)@.proposals.len(),
            forall|j: int|
                0 <= j < old(self)@.proposals.len() ==> final(self)@.proposals[j] == expire_step(
                    #[trigger] old(self)@.proposals[j],
                    now,
                ),
    {
        let ghost old_view = self@;
        let n = self.proposals.len();
        let mut i: usize = 0;
        while i < n
            invariant
                i <= n,
                n == old_view.proposals.len(),
                self.wf(),
                self@.policies == old_view.policies,
                self@.proposals.len() == n,
                forall|j: int|
                    0 <= j < i ==> self@.proposals[j] == expire_step(
                        #[trigger] old_view.proposals[j],
                        now,
                    ),
                forall|j: int| i <= j < n ==> self@.proposals[j] == #[trigger] old_view.proposals[j],
            decreases n - i,
        {
            let ghost before = self@;
            assert(self.proposals@[i as int]@ == old_view.proposals[i as int]);
            if !self.proposals[i].status.is_terminal() && now >= self.proposals[i].expires_at {
                let mut p = self.proposals[i].copy();
                p.status = ProposalStatus::Expired;
                self.proposals.set(i, p);
                assert(self@.proposals =~= before.proposals.update(
                    i as int,
                    expire_step(old_view.proposals[i as int], now),
                ));
                assert(self@.policies =~= before.policies);
            }
            i += 1;
        }
    }
}

} // verus!
