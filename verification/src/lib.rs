//! A two-party wagering escrow.
//!
//! Two participants each deposit an equal stake into a custody account whose
//! funds only a derived, key-less vault authority can move. Once the second
//! participant has joined, the escrow selects a winner from the parity of the
//! host's wall-clock timestamp and pays the whole pot to that winner's
//! account, leaving the record permanently settled.

pub mod game;
pub mod keys;
pub mod laws;
pub mod state;
pub mod token;

pub use keys::Authority;
pub use keys::Pubkey;
pub use keys::VaultAuthority;
pub use state::ErrorCode;
pub use state::GameState;
pub use token::TokenAccount;
