//! Name and import resolution for a scaffold of fuzzing-campaign contracts.
//!
//! The crate computes, without touching the file system, the full set of
//! contracts that a campaign is made of: the handler and property leaves, the
//! aggregator of each family, the entry point and the setup contract.

pub mod cli;
pub mod error;
pub mod laws;
pub mod layout;
pub mod naming;
pub mod resolver;
pub mod suite;
pub mod types;

pub use crate::cli::Args;
pub use crate::error::GenError;
pub use crate::layout::{contract_path, plan_move, MovePlan};
pub use crate::naming::{leaf_letter, leaf_name_of, MAX_LEAVES};
pub use crate::resolver::{parse_child_imports, parse_parents};
pub use crate::suite::{
    create_contracts, generate_child, generate_parents, generate_test_suite, TestSuite,
};
pub use crate::types::{Contract, ContractBuilder, ContractType};
