//! What an operator chooses before a tree is created.

use crate::payload::TreeParameters;
use vstd::prelude::*;

verus! {

/// Default for the balance that the requesting party must hold, which is
/// also the balance that the new account is funded with.
pub const MINIMUM_LAMPORTS: u64 = 5000;

/// Default size, in bytes, of the account that holds the tree's state.
pub const SPACE: u64 = 128;

/// Default bound on the tree's height.
pub const MAX_DEPTH: u32 = 5;

/// Default bound on the number of buffered concurrent updates.
pub const MAX_BUFFER_SIZE: u32 = 256;

/// The discriminator under which the tree engine knows the operation that
/// creates a tree. It belongs to the engine's protocol: the engine rejects a
/// call that opens with anything else, and nothing here can detect that.
pub const CREATE_TREE_INSTRUCTION_DISCRIMINATOR: [u8; 8] = [165, 83, 136, 142, 89, 202, 47, 220];

/// The inputs of the operation that do not depend on who asks.
#[derive(Clone, Copy, Debug, PartialEq, Eq)]
pub struct TreeConfig {
    /// The balance below which a requesting party is turned away, and the
    /// balance that the new account is funded with.
    pub minimum_lamports: u64,
    /// The size, in bytes, of the account that holds the tree's state.
    pub space: u64,
    /// The shape of the tree.
    pub params: TreeParameters,
    /// The discriminator that opens the payload sent to the tree engine.
    pub discriminator: [u8; 8],
}

/// The tree parameters used when the operator chooses none.
pub open spec fn default_params() -> TreeParameters {
    TreeParameters { max_depth: 5, max_buffer_size: 256, is_public: false }
}

/// The configuration used when the operator chooses none.
pub open spec fn default_config() -> TreeConfig {
    TreeConfig {
        minimum_lamports: 5000,
        space: 128,
        params: default_params(),
        discriminator: CREATE_TREE_INSTRUCTION_DISCRIMINATOR,
    }
}

impl Default for TreeParameters {
    fn default() -> (params: Self)
        ensures
            params == default_params(),
    {
        TreeParameters { max_depth: MAX_DEPTH, max_buffer_size: MAX_BUFFER_SIZE, is_public: false }
    }
}

impl Default for TreeConfig {
    fn default() -> (config: Self)
        ensures
            config == default_config(),
    {
        TreeConfig {
            minimum_lamports: MINIMUM_LAMPORTS,
            space: SPACE,
            params: TreeParameters::default(),
            discriminator: CREATE_TREE_INSTRUCTION_DISCRIMINATOR,
        }
    }
}

} // verus!
