pub mod member;
pub mod multisig;
pub mod pda;
pub mod utils;
pub mod proposal;
pub mod vault;

pub use member::Member;
pub use utils::DataLen;
pub use multisig::{
    check_admin_action, check_member_exists, get_admin_index_if_exists, get_member_index_if_exists, Multisig,
};
pub use proposal::{Proposal, ProposalStatus};
pub use vault::Vault;

use vstd::prelude::*;

verus! {

} // verus!
