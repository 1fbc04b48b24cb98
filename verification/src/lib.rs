//! A small client facade for a decentralized relay network: keypair
//! management, a relay connection pool model, signed text events, and an
//! orchestrator state machine that sequences warm-up, publish and
//! acknowledgment under a deadline.
pub mod errors;
pub mod event;
pub mod hexcode;
pub mod keys;
pub mod orchestrator;
pub mod pool;
pub mod publish;
pub mod urls;
