//! What is loaded into the guest before it starts.

use vstd::prelude::*;

verus! {

/// The boot protocol that an image follows.
#[derive(Clone, Copy, Debug, PartialEq, Eq, Structural)]
pub enum ExecType {
    /// A kernel image that follows the Linux boot protocol.
    Linux,
}

/// What to load into the guest.
#[derive(Clone, Debug, PartialEq, Eq)]
pub struct Payload {
    /// The path of the kernel image.
    pub executable: String,
    /// The boot protocol of the image.
    pub exec_type: ExecType,
    /// The path of the initial ramdisk, if there is one.
    pub initramfs: Option<String>,
    /// The kernel command line, if there is one.
    pub cmd_line: Option<String>,
}

} // verus!
