//! A canvas-backed windowing and GL-context backend.
//!
//! The backend adapts a single logical "window plus GL context" API onto a
//! browser canvas surface.  The native layer (context creation, context-lost
//! polling, CSS-size queries, fullscreen exit) is represented explicitly: the
//! embedder performs the native calls and feeds their outcomes to the library
//! as plain values, and the library makes every decision — attribute
//! negotiation, creation success or failure, size mediation, teardown — in
//! verified code.

pub mod attributes;
pub mod monitor;
pub mod native;
pub mod status;
pub mod surface;
pub mod window;

pub use attributes::ContextAttributes;
pub use attributes::negotiate;
pub use monitor::MonitorID;
pub use monitor::get_available_monitors;
pub use monitor::get_primary_monitor;
pub use native::NativeAction;
pub use status::StatusCode;
pub use status::error_to_str;
pub use status::status_from_code;
pub use surface::Canvas;
pub use window::Event;
pub use window::UnsupportedOperation;
pub use window::Window;
