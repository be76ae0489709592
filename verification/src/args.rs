//! Help text for the node's chain selection flag.

use vstd::prelude::*;

verus! {

/// The help info for the `--chain` flag, listing the built-in chains.
pub fn chain_help() -> (r: String)
    ensures
        r@
            == "The chain this node is running.\nPossible values are either a built-in chain or the path to a chain specification file.\n\nBuilt-in chains:\n    mainnet, sepolia, holesky, dev"@,
{
    "The chain this node is running.\nPossible values are either a built-in chain or the path to a chain specification file.\n\nBuilt-in chains:\n    mainnet, sepolia, holesky, dev".to_owned()
}

} // verus!
