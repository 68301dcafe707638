//! The decisions of a small Wi-Fi manager that talks to NetworkManager.
//!
//! The library makes no bus call. Its driver reads what the service knows,
//! hands the readings in as plain values, and does what the library says:
//!
//! - `security` names the security category of an access point.
//! - `device` picks the wireless devices out of all managed ones.
//! - `scan` turns the access points in sight into the list of networks, with
//!   `scan_laws` telling which access point stands for an SSID and why.
//! - `profile` reads saved profiles and builds the settings of a new one.
//! - `connect` and `disconnect` lead through joining and leaving a network
//!   step by step, `activation` judges one poll of an activation, and
//!   `flow_laws` tells what holds of whole runs.
//! - `signals` turns the change signals of the service into messages.
//! - `app` is the state machine of the application, with `app_laws` telling
//!   what holds of it in every state.
//! - `text` checks object paths and decodes SSIDs; `error` names what can go
//!   wrong.

pub mod activation;
pub mod app;
pub mod app_laws;
pub mod connect;
pub mod device;
pub mod disconnect;
pub mod error;
pub mod flow_laws;
pub mod network;
pub mod profile;
pub mod scan;
pub mod scan_laws;
pub mod security;
pub mod signals;
pub mod text;
