//! The verified core of an auto clicker: the mouse buttons it can press, the
//! state that the control side and the click worker share, the worker's
//! step-by-step decisions, the texts the window shows, and the thousands grouping of the
//! session counter.

pub mod button;
pub mod engine;
pub mod hotkey;
pub mod number;
pub mod text;
pub mod worker;
