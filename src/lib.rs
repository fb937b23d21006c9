//! Decision logic of a single centred, white-filled desktop window: where it
//! goes on the screen, what its class and creation records hold, how its
//! message callback answers, and when its message loop ends.

pub mod geometry;
pub mod message_loop;
pub mod procedure;
pub mod setup;
pub mod wide;

pub use geometry::{center_window, rgb, Point, Rect, WHITE};
pub use message_loop::{loop_step, LoopStep, MessageLoop};
pub use procedure::{paint_ops, window_proc, window_result, Handling, PaintOp, WM_DESTROY, WM_PAINT};
pub use setup::{class_registration, placement, window_creation, ClassRegistration, CreateError, Placement, Window, WindowCreation, SW_SHOW, WS_OVERLAPPEDWINDOW};
pub use wide::to_wide;
