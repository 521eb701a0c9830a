//! Plain command-line request values, free of argument-parsing machinery.

use vstd::prelude::*;

verus! {

/// The subcommands the tool offers.
#[derive(Clone, Debug)]
pub enum Commands {
    /// Decode response code
    Rc {
        /// Response code
        rc: u32,
    },
    /// Enumerate objects
    List {
        /// Transient handles
        transient: bool,
        /// Persistent handles
        persistent: bool,
    },
}

/// One command-line invocation: the device path and the subcommand.
#[derive(Clone, Debug)]
pub struct Cli {
    /// Path of the TPM character device.
    pub device: String,
    /// The requested subcommand.
    pub command: Commands,
}

} // verus!
