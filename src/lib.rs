//! Messaging bridge of the robot face: decoding of settings and display
//! messages, the field-wise merge of partial settings into the live ones, the
//! host's per-frame drain of the settings channel, and the decisions of the
//! session and display workers.

pub mod bridge;
pub mod display;
pub mod json;
pub mod message;
pub mod noise_engine;
pub mod presentation;
pub mod session;
pub mod settings;
