use soroban_multisig::migration::{migration_outcome, wasm_hash, MigrationStatus};

#[test]
fn wasm_hash_of_empty_binary() {
    assert_eq!(
        wasm_hash(b""),
        "e3b0c44298fc1c149afbf4c8996fb92427ae41e4649b934ca495991b7852b855"
    );
}

#[test]
fn wasm_hash_is_lower_case_hex_of_sha256() {
    let h = wasm_hash(b"abc");
    assert_eq!(h, "ba7816bf8f01cfea414140de5dae2223b00361a396177a9cb410ff61f20015ad");
    assert_eq!(h.len(), 64);
}

#[test]
fn simulated_outcomes() {
    let (s, log) = migration_outcome(true, false);
    assert_eq!(s, MigrationStatus::Failed);
    assert_eq!(log, "Simulation: Migration failed as requested.");
    let (s, log) = migration_outcome(true, true);
    assert_eq!(s, MigrationStatus::Failed);
    assert_eq!(log, "Simulation: Migration failed as requested.");
    let (s, log) = migration_outcome(false, false);
    assert_eq!(s, MigrationStatus::Success);
    assert_eq!(log, "Simulation: Migration succeeded.");
    let (s, log) = migration_outcome(false, true);
    assert_eq!(s, MigrationStatus::Success);
    assert_eq!(log, "Simulation: Migration executed successfully via soroban CLI (mocked).");
    assert_eq!(MigrationStatus::Failed.name(), "failed");
    assert_eq!(MigrationStatus::Success.name(), "success");
    assert_eq!(MigrationStatus::Pending.name(), "pending");
}
