pub mod command;
pub mod config;
pub mod draw;
pub mod effect;
pub mod equality;
pub mod error;
pub mod feedback;
pub mod framebuffer;
pub mod gl;
pub mod identity;
pub mod keyboard;
pub mod laws;
pub mod mouse;
pub mod pipeline;
pub mod playback;
pub mod resource;
pub mod scale;
pub mod shader;
pub mod source;
pub mod stage;
pub mod stream;
pub mod table;
pub mod uniform;
pub mod validate;
pub mod watch;
