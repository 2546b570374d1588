use vstd::prelude::*;

verus! {

/// The networks a deployment proposal can target.
#[derive(Clone, Copy, Debug, PartialEq, Eq, Structural)]
pub enum Network {
    Mainnet,
    Testnet,
    Futurenet,
}

/// Lifecycle status of a proposal.
#[derive(Clone, Copy, Debug, PartialEq, Eq, Structural)]
pub enum ProposalStatus {
    Pending,
    Approved,
    Executed,
    Expired,
    Rejected,
}

impl ProposalStatus {
    /// A terminal status is never left again.
    pub open spec fn spec_is_terminal(self) -> bool {
        self == ProposalStatus::Executed || self == ProposalStatus::Expired
            || self == ProposalStatus::Rejected
    }

    pub fn is_terminal(&self) -> (r: bool)
        ensures
            r == self.spec_is_terminal(),
    {
        match self {
            ProposalStatus::Executed | ProposalStatus::Expired | ProposalStatus::Rejected => true,
            _ => false,
        }
    }
}

/// Every way an operation of the approval engine can fail.
#[derive(Clone, Copy, Debug, PartialEq, Eq, Structural)]
pub enum MultisigError {
    InvalidPolicy,
    NotFound,
    InvalidNetwork,
    Unauthorized,
    DuplicateSignature,
    Expired,
    Terminal,
    NotApproved,
    AlreadyExecuted,
}

/// The text of each string in a sequence.
pub open spec fn string_views(v: Seq<String>) -> Seq<Seq<char>> {
    v.map_values(|s: String| s@)
}

pub open spec fn opt_string_view(o: Option<String>) -> Option<Seq<char>> {
    match o {
        Some(s) => Some(s@),
        None => None,
    }
}

/// A copy of a vector of strings, character for character.
pub fn copy_strings(v: &Vec<String>) -> (r: Vec<String>)
    ensures
        string_views(r@) == string_views(v@),
{
    let mut r: Vec<String> = Vec::new();
    let mut i: usize = 0;
    while i < v.len()
        invariant
            i <= v@.len(),
            r@.len() == i,
            forall|j: int| 0 <= j < i ==> (#[trigger] r@[j])@ == v@[j]@,
        decreases v@.len() - i,
    {
        r.push(v[i].clone());
        i += 1;
    }
    assert(string_views(r@) =~= string_views(v@));
    r
}

pub fn copy_opt_string(o: &Option<String>) -> (r: Option<String>)
    ensures
        opt_string_view(r) == opt_string_view(*o),
{
    match o {
        Some(s) => Some(s.clone()),
        None => None,
    }
}

/// What a policy must satisfy: `1 <= threshold <= signers.len()`, over a set of distinct,
/// well-formed addresses.
pub open spec fn valid_policy_params(threshold: nat, signers: Seq<Seq<char>>) -> bool {
    &&& 1 <= threshold <= signers.len()
    &&& signers.no_duplicates()
    &&& forall|i: int|
        0 <= i < signers.len() ==> crate::address::spec_valid_address(#[trigger] signers[i])
}

/// The elements of `s` without repeats, each at its first occurrence.
pub open spec fn distinct(s: Seq<Seq<char>>) -> Seq<Seq<char>>
    decreases s.len(),
{
    if s.len() == 0 {
        Seq::empty()
    } else {
        let d = distinct(s.drop_last());
        if d.contains(s.last()) {
            d
        } else {
            d.push(s.last())
        }
    }
}

pub proof fn lemma_distinct(s: Seq<Seq<char>>)
    ensures
        distinct(s).no_duplicates(),
        forall|x: Seq<char>| distinct(s).contains(x) <==> s.contains(x),
        distinct(s).to_set() == s.to_set(),
    decreases s.len(),
{
    if s.len() > 0 {
        let init = s.drop_last();
        lemma_distinct(init);
        let d = distinct(init);
        assert forall|x: Seq<char>| s.contains(x) <==> (init.contains(x) || x == s.last()) by {
            if s.contains(x) {
                let k = choose|k: int| 0 <= k < s.len() && s[k] == x;
                if k < s.len() - 1 {
                    assert(init[k] == x);
                }
            }
            if init.contains(x) {
                let k = choose|k: int| 0 <= k < init.len() && init[k] == x;
                assert(s[k] == x);
            }
            if x == s.last() {
                assert(s[s.len() - 1] == x);
            }
        }
        if !d.contains(s.last()) {
            let e = d.push(s.last());
            assert forall|x: Seq<char>| e.contains(x) <==> (d.contains(x) || x == s.last()) by {
                if e.contains(x) {
                    let k = choose|k: int| 0 <= k < e.len() && e[k] == x;
                    if k < d.len() {
                        assert(d[k] == x);
                    }
                }
                if d.contains(x) {
                    let k = choose|k: int| 0 <= k < d.len() && d[k] == x;
                    assert(e[k] == x);
                }
                if x == s.last() {
                    assert(e[e.len() - 1] == x);
                }
            }
            assert forall|i: int, j: int| 0 <= i < e.len() && 0 <= j < e.len() && i != j
                implies e[i] != e[j] by {
                if i == e.len() - 1 {
                    assert(d.contains(e[j]) ==> e[j] != s.last());
                    assert(e[j] == d[j]);
                } else if j == e.len() - 1 {
                    assert(e[i] == d[i]);
                }
            }
        }
        assert(distinct(s).to_set() =~= s.to_set());
    }
}

/// What a policy request must satisfy: a non-empty list of well-formed addresses whose
/// number of distinct entries is at least the threshold, itself at least one.
pub open spec fn valid_policy_request(threshold: nat, signers: Seq<Seq<char>>) -> bool {
    &&& signers.len() > 0
    &&& forall|i: int|
        0 <= i < signers.len() ==> crate::address::spec_valid_address(#[trigger] signers[i])
    &&& 1 <= threshold <= distinct(signers).len()
}

/// An M-of-N approval rule: which addresses may sign, and how many must.
pub struct Policy {
    pub id: u64,
    pub name: String,
    pub threshold: u32,
    pub signers: Vec<String>,
    pub default_expiry: u64,
    pub created_by: String,
    pub created_at: u64,
}

pub struct PolicyView {
    pub id: u64,
    pub name: Seq<char>,
    pub threshold: nat,
    pub signers: Seq<Seq<char>>,
    pub default_expiry: u64,
    pub created_by: Seq<char>,
    pub created_at: u64,
}

impl View for Policy {
    type V = PolicyView;

    open spec fn view(&self) -> PolicyView {
        PolicyView {
            id: self.id,
            name: self.name@,
            threshold: self.threshold as nat,
            signers: string_views(self.signers@),
            default_expiry: self.default_expiry,
            created_by: self.created_by@,
            created_at: self.created_at,
        }
    }
}

impl PolicyView {
    /// The policy invariant: `1 <= M <= N` over a set of well-formed addresses.
    pub open spec fn wf(self) -> bool {
        valid_policy_params(self.threshold, self.signers)
    }
}

impl Policy {
    pub fn copy(&self) -> (r: Policy)
        ensures
            r@ == self@,
    {
        Policy {
            id: self.id,
            name: self.name.clone(),
            threshold: self.threshold,
            signers: copy_strings(&self.signers),
            default_expiry: self.default_expiry,
            created_by: self.created_by.clone(),
            created_at: self.created_at,
        }
    }
}

/// One signer's approval of one proposal.
pub struct Signature {
    pub proposal_id: u64,
    pub signer: String,
    pub signature_data: Option<String>,
    pub signed_at: u64,
}

pub struct SignatureView {
    pub proposal_id: u64,
    pub signer: Seq<char>,
    pub signature_data: Option<Seq<char>>,
    pub signed_at: u64,
}

impl View for Signature {
    type V = SignatureView;

    open spec fn view(&self) -> SignatureView {
        SignatureView {
            proposal_id: self.proposal_id,
            signer: self.signer@,
            signature_data: opt_string_view(self.signature_data),
            signed_at: self.signed_at,
        }
    }
}

impl Signature {
    pub fn copy(&self) -> (r: Signature)
        ensures
            r@ == self@,
    {
        Signature {
            proposal_id: self.proposal_id,
            signer: self.signer.clone(),
            signature_data: copy_opt_string(&self.signature_data),
            signed_at: self.signed_at,
        }
    }
}

pub open spec fn signature_views(v: Seq<Signature>) -> Seq<SignatureView> {
    v.map_values(|s: Signature| s@)
}

/// The signer of each signature, in order.
pub open spec fn signers_of(sigs: Seq<SignatureView>) -> Seq<Seq<char>> {
    sigs.map_values(|s: SignatureView| s.signer)
}

pub fn copy_signatures(v: &Vec<Signature>) -> (r: Vec<Signature>)
    ensures
        signature_views(r@) == signature_views(v@),
{
    let mut r: Vec<Signature> = Vec::new();
    let mut i: usize = 0;
    while i < v.len()
        invariant
            i <= v@.len(),
            r@.len() == i,
            forall|j: int| 0 <= j < i ==> (#[trigger] r@[j])@ == v@[j]@,
        decreases v@.len() - i,
    {
        r.push(v[i].copy());
        i += 1;
    }
    assert(signature_views(r@) =~= signature_views(v@));
    r
}

/// A proposed deployment awaiting approval, with the signatures it has gathered.
pub struct Proposal {
    pub id: u64,
    pub policy_id: u64,
    pub contract_name: String,
    pub contract_id: String,
    pub wasm_hash: String,
    pub network: Network,
    pub proposer: String,
    pub description: Option<String>,
    pub created_at: u64,
    pub expires_at: u64,
    pub status: ProposalStatus,
    pub signatures: Vec<Signature>,
}

pub struct ProposalView {
    pub id: u64,
    pub policy_id: u64,
    pub contract_name: Seq<char>,
    pub contract_id: Seq<char>,
    pub wasm_hash: Seq<char>,
    pub network: Network,
    pub proposer: Seq<char>,
    pub description: Option<Seq<char>>,
    pub created_at: u64,
    pub expires_at: u64,
    pub status: ProposalStatus,
    pub signatures: Seq<SignatureView>,
}

impl View for Proposal {
    type V = ProposalView;

    open spec fn view(&self) -> ProposalView {
        ProposalView {
            id: self.id,
            policy_id: self.policy_id,
            contract_name: self.contract_name@,
            contract_id: self.contract_id@,
            wasm_hash: self.wasm_hash@,
            network: self.network,
            proposer: self.proposer@,
            description: opt_string_view(self.description),
            created_at: self.created_at,
            expires_at: self.expires_at,
            status: self.status,
            signatures: signature_views(self.signatures@),
        }
    }
}

impl ProposalView {
    /// The addresses that have signed, in the order they signed.
    pub open spec fn signers(self) -> Seq<Seq<char>> {
        signers_of(self.signatures)
    }
}

impl Proposal {
    pub fn copy(&self) -> (r: Proposal)
        ensures
            r@ == self@,
    {
        Proposal {
            id: self.id,
            policy_id: self.policy_id,
            contract_name: self.contract_name.clone(),
            contract_id: self.contract_id.clone(),
            wasm_hash: self.wasm_hash.clone(),
            network: self.network,
            proposer: self.proposer.clone(),
            description: copy_opt_string(&self.description),
            created_at: self.created_at,
            expires_at: self.expires_at,
            status: self.status,
            signatures: copy_signatures(&self.signatures),
        }
    }
}

} // verus!
