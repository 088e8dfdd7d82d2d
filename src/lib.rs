//! A batched quad renderer's verified core: vertex attribute layouts, the
//! shared quad index pattern, the capacity-bounded batch with its texture-slot
//! table, lazily uploaded textures, input state and the application's layer
//! stack. GPU calls, windowing and image decoding live outside this library;
//! they consume the plain values and draw commands that it produces.

pub mod layout;
pub mod texture;
pub mod quad;
pub mod batch;
pub mod input;
pub mod app;
