use vstd::prelude::*;
use vstd::string::*;
use sha2::Digest;

verus! {

/// Outcome recorded for a contract migration.
#[derive(Clone, Copy, Debug, PartialEq, Eq, Structural)]
pub enum MigrationStatus {
    Pending,
    Success,
    Failed,
}

impl MigrationStatus {
    pub open spec fn spec_name(self) -> Seq<char> {
        match self {
            MigrationStatus::Pending => "pending"@,
            MigrationStatus::Success => "success"@,
            MigrationStatus::Failed => "failed"@,
        }
    }

    /// The name under which the registry API stores the status.
    pub fn name(&self) -> (r: String)
        ensures
            r@ == self.spec_name(),
    {
        match self {
            MigrationStatus::Pending => String::from_str("pending"),
            MigrationStatus::Success => String::from_str("success"),
            MigrationStatus::Failed => String::from_str("failed"),
        }
    }
}

/// The lower-case hexadecimal digit of a value below 16.
pub open spec fn hex_digit(n: int) -> char {
    seq!['0', '1', '2', '3', '4', '5', '6', '7', '8', '9', 'a', 'b', 'c', 'd', 'e', 'f'][n]
}

/// Two lower-case hexadecimal digits per byte, high nibble first.
pub open spec fn hex_lower(b: Seq<u8>) -> Seq<char>
    decreases b.len(),
{
    if b.len() == 0 {
        Seq::empty()
    } else {
        hex_lower(b.drop_last()) + seq![
            hex_digit(b.last() as int / 16),
            hex_digit(b.last() as int % 16),
        ]
    }
}

pub proof fn lemma_hex_lower_len(b: Seq<u8>)
    ensures
        hex_lower(b).len() == 2 * b.len(),
    decreases b.len(),
{
    if b.len() > 0 {
        lemma_hex_lower_len(b.drop_last());
    }
}

/// What SHA-256 makes of a byte string.
pub uninterp spec fn sha256_of(b: Seq<u8>) -> Seq<u8>;

/// Relies on sha2's `Sha256::digest`: the SHA-256 digest of the bytes, which is 32 bytes
/// long.
#[verifier::external_body]
fn sha256(b: &[u8]) -> (r: Vec<u8>)
    ensures
        r@ == sha256_of(b@),
        r@.len() == 32,
{
    sha2::Sha256::digest(b).to_vec()
}

/// Relies on `hex::encode`: two lower-case hexadecimal digits per byte, high nibble first.
#[verifier::external_body]
fn hex_encode(b: &[u8]) -> (r: String)
    ensures
        r@ == hex_lower(b@),
{
    hex::encode(b)
}

/// The hash under which a WASM binary is registered: its SHA-256 digest in lower-case hex.
pub fn wasm_hash(wasm: &[u8]) -> (r: String)
    ensures
        r@ == hex_lower(sha256_of(wasm@)),
        r@.len() == 64,
{
    let digest = sha256(wasm);
    proof {
        lemma_hex_lower_len(digest@);
    }
    hex_encode(digest.as_slice())
}

/// The log line recorded for a simulated migration.
pub open spec fn outcome_log(simulate_fail: bool, cli_found: bool) -> Seq<char> {
    if simulate_fail {
        "Simulation: Migration failed as requested."@
    } else if cli_found {
        "Simulation: Migration executed successfully via soroban CLI (mocked)."@
    } else {
        "Simulation: Migration succeeded."@
    }
}

/// Status and log of a migration, which is simulated whether or not the `soroban` tool is
/// installed: it fails exactly when a failure is asked for.
pub fn migration_outcome(simulate_fail: bool, cli_found: bool) -> (r: (MigrationStatus, String))
    ensures
        r.0 == (if simulate_fail {
            MigrationStatus::Failed
        } else {
            MigrationStatus::Success
        }),
        r.1@ == outcome_log(simulate_fail, cli_found),
{
    if simulate_fail {
        (MigrationStatus::Failed, String::from_str("Simulation: Migration failed as requested."))
    } else if cli_found {
        (
            MigrationStatus::Success,
            String::from_str("Simulation: Migration executed successfully via soroban CLI (mocked)."),
        )
    } else {
        (MigrationStatus::Success, String::from_str("Simulation: Migration succeeded."))
    }
}

} // verus!
