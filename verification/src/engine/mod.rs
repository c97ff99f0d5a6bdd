pub mod agent;
pub mod context;
pub mod flow;
pub mod node;
pub mod status;
pub mod stream_message;
