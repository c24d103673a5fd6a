//! A synchronous, verified core for a workshop façade: the identifier codec,
//! the one-shot delivery slots that pair each platform callback with its
//! caller, the sparse item update, and the mapping of each operation's
//! request and reply.

pub mod bigint;
pub mod bridge;
pub mod update;
pub mod workshop;
