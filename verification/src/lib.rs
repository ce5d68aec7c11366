//! Switching the boot manager's stored "previous boot" selection and rebooting into it.
//!
//! The library holds the decisions and the wire format; a thin program around it performs
//! the firmware-variable accesses, the privileged re-invocation and the reboot request.

pub mod efi;
pub mod failure;
pub mod platform;
pub mod reboot;
pub mod run;
pub mod string;
pub mod switch;
