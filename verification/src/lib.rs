/// 32-byte account identities.
pub mod address;
/// The failure taxonomy.
pub mod error;
/// Deterministic derivation of custody accounts and signing authorities.
pub mod pda;
/// The token-transfer service, modelled at its boundary.
pub mod token;
/// The vault registry, balance records, and custody state.
pub mod state;
/// The deposit and withdraw state machine.
pub mod ops;
/// Laws the state machine obeys, proved over its transitions.
pub mod laws;
