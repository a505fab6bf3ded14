pub mod builtins;
pub mod canvas;
pub mod config;
pub mod engine;
pub mod pipeline;
pub mod sandbox;
pub mod scalar;
pub mod store;
pub mod text;
