//! Verified logic of the funded swap laboratory.
//!
//! The laboratory drives swaps between a requester and a provider over a relay, pays for them on
//! regtest networks, and checks the evidence that each of them leaves. Everything that it decides
//! stands here as functions on plain values. What touches a socket, a file, a node or a wallet is
//! performed by the program around this library: a journey hands it one action at a time and is
//! told the reply.

pub mod amount;
pub mod answer;
pub mod authorize;
pub mod boltz;
pub mod chain;
pub mod conflict;
pub mod contract;
pub mod control;
pub mod cooperative;
pub mod direct;
pub mod doomsday;
pub mod driver;
pub mod environment;
pub mod evidence;
pub mod exit;
pub mod fee;
pub mod hex;
pub mod http;
pub mod journey;
pub mod json;
pub mod kept;
pub mod keyless;
pub mod lifecycle;
pub mod liquid;
pub mod machine;
pub mod node;
pub mod order;
pub mod payment;
pub mod planner;
pub mod probe;
pub mod record;
pub mod recovery;
pub mod relay;
pub mod restore;
pub mod reverse;
pub mod settlement;
pub mod smoke;
pub mod status;
pub mod submarine;
pub mod terminal;
pub mod text;
pub mod topology;
pub mod wire;
