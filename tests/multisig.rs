use soroban_multisig::model::{MultisigError, Network, ProposalStatus};
use soroban_multisig::registry::{Registry, DEFAULT_EXPIRY_SECS};

fn addr(c: char) -> String {
    let mut s = String::from("G");
    for _ in 0..55 {
        s.push(c);
    }
    s
}

const T0: u64 = 1_000;

/// A registry with one 2-of-3 policy (signers A, B, C) and one pending proposal.
fn setup() -> (Registry, u64, u64) {
    let mut reg = Registry::new();
    let policy = reg
        .create_policy(
            "deployers".to_string(),
            2,
            vec![addr('A'), addr('B'), addr('C')],
            None,
            addr('Z'),
            T0,
        )
        .unwrap();
    let proposal = reg
        .create_proposal(
            "token".to_string(),
            "CTOKEN".to_string(),
            "abcd".to_string(),
            "testnet",
            policy.id,
            addr('A'),
            Some("first deploy".to_string()),
            None,
            T0,
        )
        .unwrap();
    (reg, policy.id, proposal.id)
}

#[test]
fn policy_threshold_must_fit_signers() {
    let mut reg = Registry::new();
    let two = vec![addr('A'), addr('B')];
    assert_eq!(
        reg.create_policy("p".to_string(), 3, two.clone(), None, addr('Z'), T0).err(),
        Some(MultisigError::InvalidPolicy)
    );
    assert_eq!(
        reg.create_policy("p".to_string(), 0, two.clone(), None, addr('Z'), T0).err(),
        Some(MultisigError::InvalidPolicy)
    );
    assert_eq!(
        reg.create_policy("p".to_string(), 1, vec![], None, addr('Z'), T0).err(),
        Some(MultisigError::InvalidPolicy)
    );
    let p = reg.create_policy("p".to_string(), 2, two, Some(60), addr('Z'), T0).unwrap();
    assert!(p.threshold as usize <= p.signers.len());
    assert_eq!(p.id, 0);
    assert_eq!(p.default_expiry, 60);
    assert_eq!(p.created_at, T0);
}

#[test]
fn policy_rejects_malformed_signers() {
    let mut reg = Registry::new();
    assert_eq!(
        reg.create_policy("p".to_string(), 1, vec!["GSHORT".to_string()], None, addr('Z'), T0)
            .err(),
        Some(MultisigError::InvalidPolicy)
    );
    let lower = "G".to_string() + &"a".repeat(55);
    assert_eq!(
        reg.create_policy("p".to_string(), 1, vec![lower], None, addr('Z'), T0).err(),
        Some(MultisigError::InvalidPolicy)
    );
    let not_g = "C".to_string() + &"A".repeat(55);
    assert_eq!(
        reg.create_policy("p".to_string(), 1, vec![not_g], None, addr('Z'), T0).err(),
        Some(MultisigError::InvalidPolicy)
    );
    assert_eq!(
        reg.create_policy("p".to_string(), 2, vec![addr('A'), addr('A')], None, addr('Z'), T0)
            .err(),
        Some(MultisigError::InvalidPolicy)
    );
    let digits = "G".to_string() + &"2".repeat(27) + &"7".repeat(28);
    assert!(reg.create_policy("p".to_string(), 1, vec![digits], None, addr('Z'), T0).is_ok());
}

#[test]
fn get_policy_reports_missing() {
    let (reg, policy_id, _) = setup();
    assert_eq!(reg.get_policy(policy_id).unwrap().threshold, 2);
    assert_eq!(reg.get_policy(policy_id + 1).err(), Some(MultisigError::NotFound));
}

#[test]
fn proposal_defaults_and_errors() {
    let (mut reg, policy_id, proposal_id) = setup();
    let info = reg.proposal_info(proposal_id, T0).unwrap();
    assert_eq!(info.proposal.status, ProposalStatus::Pending);
    assert_eq!(info.proposal.network, Network::Testnet);
    assert_eq!(info.proposal.expires_at, T0 + DEFAULT_EXPIRY_SECS);
    assert_eq!(info.policy.id, policy_id);
    assert_eq!(
        reg.create_proposal(
            "x".to_string(),
            "C".to_string(),
            "h".to_string(),
            "testnet",
            policy_id + 7,
            addr('A'),
            None,
            None,
            T0
        )
        .err(),
        Some(MultisigError::NotFound)
    );
    assert_eq!(
        reg.create_proposal(
            "x".to_string(),
            "C".to_string(),
            "h".to_string(),
            "devnet",
            policy_id,
            addr('A'),
            None,
            None,
            T0
        )
        .err(),
        Some(MultisigError::InvalidNetwork)
    );
    let p = reg
        .create_proposal(
            "x".to_string(),
            "C".to_string(),
            "h".to_string(),
            "mainnet",
            policy_id,
            addr('A'),
            None,
            Some(5),
            T0,
        )
        .unwrap();
    assert_eq!(p.id, proposal_id + 1);
    assert_eq!(p.expires_at, 5);
    assert_eq!(p.network, Network::Mainnet);
    assert_eq!(reg.proposal_info(99, T0).err(), Some(MultisigError::NotFound));
}

#[test]
fn deadline_saturates() {
    let mut reg = Registry::new();
    let pol = reg
        .create_policy("p".to_string(), 1, vec![addr('A')], Some(10), addr('Z'), T0)
        .unwrap();
    let p = reg
        .create_proposal(
            "x".to_string(),
            "C".to_string(),
            "h".to_string(),
            "futurenet",
            pol.id,
            addr('A'),
            None,
            None,
            u64::MAX - 3,
        )
        .unwrap();
    assert_eq!(p.expires_at, u64::MAX);
}

#[test]
fn scenario_two_of_three_approval_and_execution() {
    let (mut reg, _, id) = setup();
    let after_a = reg.sign(id, addr('A'), None, T0 + 1).unwrap();
    assert_eq!(after_a.status, ProposalStatus::Pending);
    assert_eq!(after_a.signatures.len(), 1);
    let after_b = reg.sign(id, addr('B'), Some("00ff".to_string()), T0 + 2).unwrap();
    assert_eq!(after_b.status, ProposalStatus::Approved);
    assert_eq!(after_b.signatures.len(), 2);
    assert_eq!(after_b.signatures[1].signed_at, T0 + 2);
    assert_eq!(after_b.signatures[1].signature_data, Some("00ff".to_string()));
    let result = reg.execute(id, T0 + 3).unwrap();
    assert_eq!(result.proposal_id, id);
    assert_eq!(result.contract_id, "CTOKEN");
    assert_eq!(result.wasm_hash, "abcd");
    assert_eq!(result.network, Network::Testnet);
    assert_eq!(reg.proposal_info(id, T0).unwrap().proposal.status, ProposalStatus::Executed);
}

#[test]
fn scenario_duplicate_signature() {
    let (mut reg, _, id) = setup();
    reg.sign(id, addr('A'), None, T0 + 1).unwrap();
    assert_eq!(
        reg.sign(id, addr('A'), None, T0 + 2).err(),
        Some(MultisigError::DuplicateSignature)
    );
    assert_eq!(reg.proposal_info(id, T0).unwrap().proposal.signatures.len(), 1);
}

#[test]
fn scenario_unauthorized_signer() {
    let (mut reg, _, id) = setup();
    assert_eq!(reg.sign(id, addr('D'), None, T0 + 1).err(), Some(MultisigError::Unauthorized));
    assert_eq!(reg.proposal_info(id, T0).unwrap().proposal.signatures.len(), 0);
}

#[test]
fn scenario_sign_after_expiry() {
    let (mut reg, _, id) = setup();
    let late = T0 + DEFAULT_EXPIRY_SECS;
    assert_eq!(reg.sign(id, addr('A'), None, late).err(), Some(MultisigError::Expired));
    assert_eq!(reg.proposal_info(id, T0).unwrap().proposal.status, ProposalStatus::Expired);
    assert_eq!(reg.sign(id, addr('B'), None, late + 1).err(), Some(MultisigError::Terminal));
    assert_eq!(reg.proposal_info(id, T0).unwrap().proposal.signatures.len(), 0);
}

#[test]
fn scenario_execute_pending_is_not_approved() {
    let (mut reg, _, id) = setup();
    reg.sign(id, addr('A'), None, T0 + 1).unwrap();
    assert_eq!(reg.execute(id, T0 + 2).err(), Some(MultisigError::NotApproved));
    assert_eq!(reg.proposal_info(id, T0).unwrap().proposal.status, ProposalStatus::Pending);
}

#[test]
fn scenario_second_execute_already_executed() {
    let (mut reg, _, id) = setup();
    reg.sign(id, addr('A'), None, T0 + 1).unwrap();
    reg.sign(id, addr('B'), None, T0 + 1).unwrap();
    assert!(reg.execute(id, T0 + 2).is_ok());
    assert_eq!(reg.execute(id, T0 + 2).err(), Some(MultisigError::AlreadyExecuted));
    assert_eq!(reg.proposal_info(id, T0).unwrap().proposal.status, ProposalStatus::Executed);
}

#[test]
fn execute_twice_even_after_deadline() {
    let (mut reg, _, id) = setup();
    reg.sign(id, addr('A'), None, T0 + 1).unwrap();
    reg.sign(id, addr('C'), None, T0 + 1).unwrap();
    assert!(reg.execute(id, T0 + 2).is_ok());
    let late = T0 + DEFAULT_EXPIRY_SECS * 2;
    assert_eq!(reg.execute(id, late).err(), Some(MultisigError::AlreadyExecuted));
    assert_eq!(reg.sign(id, addr('B'), None, T0 + 3).err(), Some(MultisigError::Terminal));
}

#[test]
fn approved_proposal_accepts_extra_signatures_and_still_expires() {
    let (mut reg, _, id) = setup();
    reg.sign(id, addr('A'), None, T0 + 1).unwrap();
    reg.sign(id, addr('B'), None, T0 + 1).unwrap();
    let third = reg.sign(id, addr('C'), None, T0 + 2).unwrap();
    assert_eq!(third.status, ProposalStatus::Approved);
    assert_eq!(third.signatures.len(), 3);
    let late = T0 + DEFAULT_EXPIRY_SECS;
    assert_eq!(reg.execute(id, late).err(), Some(MultisigError::Expired));
    assert_eq!(reg.proposal_info(id, T0).unwrap().proposal.status, ProposalStatus::Expired);
    assert_eq!(reg.execute(id, late).err(), Some(MultisigError::Expired));
}

#[test]
fn expiry_dominates_whatever_the_signatures() {
    let (mut reg, _, id) = setup();
    reg.sign(id, addr('A'), None, T0 + 1).unwrap();
    reg.sign(id, addr('B'), None, T0 + 1).unwrap();
    let late = T0 + DEFAULT_EXPIRY_SECS + 5;
    assert!(reg.sign(id, addr('C'), None, late).is_err());
    assert!(reg.execute(id, late).is_err());
    assert!(reg.execute(id, late + 100).is_err());
}

#[test]
fn unknown_proposal_is_not_found() {
    let (mut reg, _, id) = setup();
    assert_eq!(reg.sign(id + 1, addr('A'), None, T0).err(), Some(MultisigError::NotFound));
    assert_eq!(reg.execute(id + 1, T0).err(), Some(MultisigError::NotFound));
}

#[test]
fn status_sequence_moves_forward() {
    let (mut reg, _, id) = setup();
    let mut seen = vec![reg.proposal_info(id, T0).unwrap().proposal.status];
    reg.sign(id, addr('A'), None, T0 + 1).unwrap();
    seen.push(reg.proposal_info(id, T0).unwrap().proposal.status);
    let _ = reg.execute(id, T0 + 1);
    seen.push(reg.proposal_info(id, T0).unwrap().proposal.status);
    reg.sign(id, addr('B'), None, T0 + 2).unwrap();
    seen.push(reg.proposal_info(id, T0).unwrap().proposal.status);
    reg.execute(id, T0 + 3).unwrap();
    seen.push(reg.proposal_info(id, T0).unwrap().proposal.status);
    let _ = reg.sign(id, addr('C'), None, T0 + 4);
    seen.push(reg.proposal_info(id, T0).unwrap().proposal.status);
    assert_eq!(
        seen,
        vec![
            ProposalStatus::Pending,
            ProposalStatus::Pending,
            ProposalStatus::Pending,
            ProposalStatus::Approved,
            ProposalStatus::Executed,
            ProposalStatus::Executed
        ]
    );
}

#[test]
fn sweep_marks_overdue_proposals() {
    let (mut reg, policy_id, id) = setup();
    let other = reg
        .create_proposal(
            "x".to_string(),
            "C".to_string(),
            "h".to_string(),
            "testnet",
            policy_id,
            addr('A'),
            None,
            Some(T0 + 10 * DEFAULT_EXPIRY_SECS),
            T0,
        )
        .unwrap();
    reg.sweep_expired(T0 + DEFAULT_EXPIRY_SECS);
    assert_eq!(reg.proposal_info(id, T0).unwrap().proposal.status, ProposalStatus::Expired);
    assert_eq!(reg.proposal_info(other.id, T0).unwrap().proposal.status, ProposalStatus::Pending);
}

#[test]
fn listing_is_newest_first_and_filtered() {
    let (mut reg, policy_id, first) = setup();
    let mut ids = vec![first];
    for _ in 0..3 {
        let p = reg
            .create_proposal(
                "x".to_string(),
                "C".to_string(),
                "h".to_string(),
                "testnet",
                policy_id,
                addr('A'),
                None,
                None,
                T0,
            )
            .unwrap();
        ids.push(p.id);
    }
    reg.sign(ids[1], addr('A'), None, T0 + 1).unwrap();
    reg.sign(ids[1], addr('B'), None, T0 + 1).unwrap();
    let all: Vec<u64> = reg.list_proposals(None, 0, 10).iter().map(|p| p.id).collect();
    assert_eq!(all, vec![ids[3], ids[2], ids[1], ids[0]]);
    let two: Vec<u64> = reg.list_proposals(None, 0, 2).iter().map(|p| p.id).collect();
    assert_eq!(two, vec![ids[3], ids[2]]);
    let pending: Vec<u64> = reg
        .list_proposals(Some(ProposalStatus::Pending), 0, 10)
        .iter()
        .map(|p| p.id)
        .collect();
    assert_eq!(pending, vec![ids[3], ids[2], ids[0]]);
    let approved: Vec<u64> = reg
        .list_proposals(Some(ProposalStatus::Approved), 0, 10)
        .iter()
        .map(|p| p.id)
        .collect();
    assert_eq!(approved, vec![ids[1]]);
    assert!(reg.list_proposals(None, 0, 0).is_empty());
    let next: Vec<u64> = reg.list_proposals(None, 2, 2).iter().map(|p| p.id).collect();
    assert_eq!(next, vec![ids[1], ids[0]]);
    let tail: Vec<u64> = reg
        .list_proposals(Some(ProposalStatus::Pending), 1, 5)
        .iter()
        .map(|p| p.id)
        .collect();
    assert_eq!(tail, vec![ids[2], ids[0]]);
    assert!(reg.list_proposals(None, 4, 3).is_empty());
    assert!(reg.list_proposals(None, usize::MAX, usize::MAX).is_empty());
}

#[test]
fn signer_set_stays_distinct_and_bounded() {
    let (mut reg, _, id) = setup();
    for (i, c) in ['A', 'A', 'D', 'B', 'B', 'C', 'C', 'E'].iter().enumerate() {
        let _ = reg.sign(id, addr(*c), None, T0 + i as u64);
    }
    let info = reg.proposal_info(id, T0).unwrap();
    let signers: Vec<&String> = info.proposal.signatures.iter().map(|s| &s.signer).collect();
    assert_eq!(signers, vec![&addr('A'), &addr('B'), &addr('C')]);
    assert!(signers.len() <= info.policy.signers.len());
    assert!(info.proposal.signatures.iter().all(|s| s.proposal_id == id));
}

#[test]
fn repeated_signers_form_a_set() {
    let mut reg = Registry::new();
    let p = reg
        .create_policy(
            "p".to_string(),
            2,
            vec![addr('B'), addr('A'), addr('B'), addr('A')],
            None,
            addr('Z'),
            T0,
        )
        .unwrap();
    assert_eq!(p.signers, vec![addr('B'), addr('A')]);
    assert_eq!(p.threshold, 2);
    assert_eq!(p.default_expiry, DEFAULT_EXPIRY_SECS);
    let q = reg
        .create_policy("q".to_string(), 1, vec![addr('A'), addr('A')], None, addr('Z'), T0)
        .unwrap();
    assert_eq!(q.signers, vec![addr('A')]);
}

#[test]
fn reading_an_overdue_proposal_expires_it() {
    let (mut reg, _, id) = setup();
    let late = T0 + DEFAULT_EXPIRY_SECS;
    assert_eq!(reg.proposal_info(id, late - 1).unwrap().proposal.status, ProposalStatus::Pending);
    assert_eq!(reg.proposal_info(id, late).unwrap().proposal.status, ProposalStatus::Expired);
    assert_eq!(reg.proposal_info(id, T0).unwrap().proposal.status, ProposalStatus::Expired);
    assert_eq!(reg.sign(id, addr('A'), None, T0 + 1).err(), Some(MultisigError::Terminal));
}

#[test]
fn reading_an_executed_proposal_after_deadline_keeps_it_executed() {
    let (mut reg, _, id) = setup();
    reg.sign(id, addr('A'), None, T0 + 1).unwrap();
    reg.sign(id, addr('B'), None, T0 + 1).unwrap();
    reg.execute(id, T0 + 2).unwrap();
    let late = T0 + 3 * DEFAULT_EXPIRY_SECS;
    assert_eq!(reg.proposal_info(id, late).unwrap().proposal.status, ProposalStatus::Executed);
}
