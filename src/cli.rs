use vstd::prelude::*;
use crate::model::Network;

verus! {

/// Command line of the registry tool: the API endpoint, an optional network and a command.
pub struct Cli {
    pub api_url: String,
    pub network: Option<String>,
    pub command: Commands,
}

/// Top-level commands of the registry tool.
#[allow(inconsistent_fields)]
pub enum Commands {
    Search { query: String, verified_only: bool },
    Info { contract_id: String },
    Publish {
        contract_id: String,
        name: String,
        description: Option<String>,
        category: Option<String>,
        tags: Option<String>,
        publisher: String,
    },
    List { limit: usize },
    Migrate { contract_id: String, wasm: String, simulate_fail: bool, dry_run: bool },
    Export { id: String, output: String, contract_dir: String },
    Import { archive: String, output_dir: String },
    Doc { contract_path: String, output: String },
    Wizard {},
    History { search: Option<String>, limit: usize },
    Patch { action: PatchCommands },
    Multisig { action: MultisigCommands },
    Events {
        contract_id: String,
        topic: Option<String>,
        filter: Option<String>,
        limit: i64,
        offset: i64,
        export: Option<String>,
        stats: bool,
    },
}

/// Commands of the multi-signature deployment workflow.
pub enum MultisigCommands {
    CreatePolicy {
        name: String,
        threshold: u32,
        signers: String,
        expiry_secs: Option<u32>,
        created_by: String,
    },
    CreateProposal {
        contract_name: String,
        contract_id: String,
        wasm_hash: String,
        network: String,
        policy_id: String,
        proposer: String,
        description: Option<String>,
    },
    Sign { proposal_id: String, signer: String, signature_data: Option<String> },
    Execute { proposal_id: String },
    Info { proposal_id: String },
    ListProposals { status: Option<String>, limit: usize },
}

/// Commands of the security patch workflow.
pub enum PatchCommands {
    Create { version: String, hash: String, severity: String, rollout: u8 },
    Notify { patch_id: String },
    Apply { contract_id: String, patch_id: String },
}

/// Query parameters of the dependency graph: an optional network filter.
pub struct GraphParams {
    pub network: Option<Network>,
}

} // verus!
