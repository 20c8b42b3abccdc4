//! A graphics-backend abstraction layer: a capability surface of opaque GPU
//! handles and fixed-meaning constants, owned buffer and shader-program
//! resources built on top of it, and a draw-submission path that composes
//! them. The backend itself is modelled as an explicit state value, so that
//! resource lifetime, binding discipline, attribute layout and uniform state
//! are all stated and machine-checked; a native adapter performs the
//! corresponding foreign calls alongside.

pub mod buffer;
pub mod context;
pub mod field;
pub mod rectangle;
pub mod render_target;
pub mod shaders;
