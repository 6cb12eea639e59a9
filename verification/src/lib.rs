//! The scene logic of a small wgpu playground: which scenes exist, how the
//! current one is chosen, what pipeline and which draw each scene asks the
//! GPU for, and how the application reacts to window events.
pub mod base_work;
pub mod pipeline;
pub mod scenes;
pub mod uniform;
