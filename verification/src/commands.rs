//! Stateless text commands: the greeting and the system-information message.
use vstd::prelude::*;
use vstd::string::*;

verus! {

/// The greeting returned for a name.
pub fn greet(name: &str) -> (r: String)
    ensures
        r@ == "Hello, "@ + name@ + "! You've been greeted from Rust!"@,
{
    String::from_str("Hello, ").concat(name).concat("! You've been greeted from Rust!")
}

/// The system-information message for the name of the host operating system
/// family. Reading that name from the host is the shell's part; this
/// function owns the message.
pub fn system_info_message(os: &str) -> (r: String)
    ensures
        r@ == "操作系统类型: "@ + os@,
{
    String::from_str("操作系统类型: ").concat(os)
}

} // verus!
