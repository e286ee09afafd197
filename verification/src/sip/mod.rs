pub mod call_flow;
pub mod dialplan;
pub mod engine;
pub mod handlers;
pub mod layers;
pub mod packet;
pub mod sdp;
pub mod server;
pub mod state;
pub mod store;
pub mod transaction;
