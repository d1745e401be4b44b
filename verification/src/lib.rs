//! On-chain governance ledger: realms, governances, deposits, votes and
//! queued proposal transactions, all keyed by derived addresses.

pub mod account;
pub mod cap_table;
pub mod deposit_capital;
pub mod enums;
pub mod error;
pub mod governance;
pub mod governing_tokens;
pub mod identity;
pub mod identity_verification;
pub mod permissioned_list;
pub mod proposal_transaction;
pub mod pubkey;
pub mod realm;
pub mod token;
pub mod token_owner_record;
pub mod verification;
pub mod vote_record;
pub mod whitelist;
pub mod wire;
