//! A snapshot-scoped query gateway over a payment-channel state machine.
//!
//! Callers ask about channels, wallets, pool accounts and conditional
//! payments either at the current head or at a named historical snapshot.
//! The gateway resolves the snapshot, queries the state view retained for
//! it, reshapes the result into wire-stable sequences and tuples, and
//! normalizes every accessor failure into one uniform error envelope.

pub mod error;
pub mod facade;
pub mod ids;
pub mod laws;
pub mod shape;
pub mod snapshot;
pub mod state;

pub use error::AccessorFailure;
pub use error::ErrorEnvelope;
pub use error::QueryError;
pub use error::QueryOp;
pub use error::APP_ERROR_CODE;
pub use facade::CelerPayModule;
pub use facade::SlotView;
pub use ids::AccountId;
pub use ids::Balance;
pub use ids::BlockNumber;
pub use ids::HashValue;
pub use state::ChannelState;
pub use state::PeerState;
pub use state::SnapshotSlot;
pub use state::StateChain;
pub use state::StateView;
pub use state::WalletState;
pub use state::WithdrawIntent;
pub use state::CHANNEL_STATUS_UNINITIALIZED;
