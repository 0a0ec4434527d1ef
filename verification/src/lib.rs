//! A fungible-token ledger with proofs.
//!
//! A [`Token`] keeps the balances of its accounts, the allowances between
//! them, one administrator and the token's metadata. Its operations are
//! those of [`TokenTrait`]: minting, burning, transfers, clawback, freezing
//! and unfreezing accounts, adjusting allowances and handing over the
//! administrator's office.
//!
//! The token never asks the outside world for anything. Who authorized a
//! call comes in as an [`Authorization`]; what there is to publish goes out
//! as an [`Event`]; the state is the token itself.
//!
//! # What is proved
//!
//! * `state` defines the token as a state machine over maps and integers.
//!   Every operation of `Token` is proved to do exactly what the state
//!   machine says, to test all its conditions before it writes anything, and
//!   to leave the token untouched when it is refused.
//! * `history` proves what holds after any sequence of calls: no balance and
//!   no allowance is ever negative, the balances add up to what was minted
//!   less what was burned and clawed back, only the administrator acts as
//!   one, the metadata never changes, and a deauthorized account neither
//!   gains nor loses.
//!
//! # Layout
//!
//! * `account`, `error`, `event`, `auth`: the plain values that pass in and
//!   out.
//! * `admin`, `metadata`, `balance`, `allowance`: the four stores that a
//!   token is made of.
//! * `holdings`: the balance ledger as a map, with the total supply.
//! * `records`: how a vector of keyed records stands for a map.
//! * `state`, `history`: the state machine and its theorems.
//! * `token`: the token and its operations.

pub mod account;
pub mod admin;
pub mod allowance;
pub mod auth;
pub mod balance;
pub mod error;
pub mod event;
pub mod history;
pub mod holdings;
pub mod metadata;
pub mod records;
pub mod state;
pub mod token;

pub use account::AccountId;
pub use admin::AdminRegistry;
pub use allowance::AllowanceLedger;
pub use auth::Authorization;
pub use balance::BalanceLedger;
pub use error::TokenError;
pub use event::Event;
pub use metadata::Metadata;
pub use token::{check_nonnegative_amount, Token, TokenTrait};
