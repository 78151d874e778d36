//! Core of a live transaction-stream dashboard: the bounded transaction log,
//! viewport arithmetic, filtering, input modes, batching and the reconnect
//! supervisor, each with its contract proved by Verus.

pub mod text;
pub mod record;
pub mod filter;
pub mod state;
pub mod handler;
pub mod batch;
pub mod render;
pub mod event_loop;
pub mod supervisor;
pub mod decoder;
pub mod display;
pub mod rpc;
