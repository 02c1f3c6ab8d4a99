//! Core of the OCvoice Audio Router: the channel-pair mixer, the restream
//! supervisor and the rules of the local HTTP interface.

pub mod autostart;
pub mod config;
pub mod decoder;
pub mod engine_stop;
pub mod http;
pub mod mixer;
pub mod pairing;
pub mod playback;
pub mod router;
pub mod supervisor;
pub mod supervisor_laws;
pub mod tail;
pub mod text;
pub mod tray;
pub mod update;
