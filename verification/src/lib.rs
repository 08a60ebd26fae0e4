//! The provider side of the DoodleIQ marketplace: a metering gateway in front of a local model
//! runtime, with what it takes to keep the machine paired, reachable and listed.
//!
//! The library decides; it performs no input or output of its own. What has to be asked of the
//! control plane or of the model runtime is a [`http::Call`], what came of it a [`http::Reply`],
//! and where asking and deciding take turns, as in [`proxy`], [`availability`] and [`agent`], a
//! state takes an event and gives the next state and the next action.

pub mod agent;
pub mod availability;
pub mod clock;
pub mod config;
pub mod grants;
pub mod heartbeat;
pub mod http;
pub mod identity;
pub mod json;
pub mod machine;
pub mod meter;
pub mod models;
pub mod pairing;
pub mod paths;
pub mod proxy;
pub mod receipts;
pub mod report;
pub mod text;
pub mod tunnel;
pub mod upstream;
pub mod usage;
