//! Game rules of the Kingshot defense prototype: the application state flow,
//! the session bookkeeping, the timers that drive the boot and menu screens,
//! the pointer-input decisions, the projectile/enemy resolution, and the
//! peer-to-peer room configuration.
pub mod aim;
pub mod combat;
pub mod flow;
pub mod input;
pub mod lifecycle;
pub mod p2p;
pub mod state;
pub mod timer;
