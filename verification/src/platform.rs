//! The platform-specific pieces that need no operating-system call: the
//! capabilities each platform's media API lacks or always grants, and the
//! artwork cache naming of the Windows adapter.

pub mod linux;
pub mod macos;
pub mod windows;
