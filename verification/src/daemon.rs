//! What tells the two supervised daemons apart.

use vstd::prelude::*;
use vstd::string::*;
use crate::text::ascii_bytes;

verus! {

/// Time between two polls of a starting daemon, in milliseconds.
pub const POLL_INTERVAL_MILLIS: u64 = 100;

/// The daemons this crate supervises.
#[derive(Clone, Copy, Debug, PartialEq, Eq, Structural)]
pub enum DaemonKind {
    /// The full node.
    Zcashd,
    /// The indexer that serves light clients.
    Zainod,
}

/// The marker that either daemon writes to its log when it has met an error.
pub open spec fn spec_error_marker() -> Seq<u8> {
    ascii_bytes("Error:"@)
}

/// The name of the file, inside the log directory, that holds a daemon's
/// standard output.
pub open spec fn spec_stdout_log_name() -> Seq<char> {
    "stdout.log"@
}

/// The name of the program that controls a running `zcashd`.
pub open spec fn spec_control_program() -> Seq<char> {
    "zcash-cli"@
}

impl DaemonKind {
    /// The name of the daemon's process, which is also the program that is
    /// run when the caller names no other.
    pub open spec fn spec_process_name(self) -> Seq<char> {
        match self {
            DaemonKind::Zcashd => "zcashd"@,
            DaemonKind::Zainod => "zainod"@,
        }
    }

    /// The marker that the daemon writes to its log once it is ready.
    pub open spec fn spec_success_marker(self) -> Seq<u8> {
        match self {
            DaemonKind::Zcashd => ascii_bytes("init message: Done loading"@),
            DaemonKind::Zainod => ascii_bytes("Server Ready."@),
        }
    }

    /// The name of the daemon's configuration file inside its configuration
    /// directory.
    pub open spec fn spec_config_file_name(self) -> Seq<char> {
        match self {
            DaemonKind::Zcashd => "zcash.conf"@,
            DaemonKind::Zainod => "zindexer.toml"@,
        }
    }

    /// Whether the daemon can be asked to shut down by a control command.
    pub open spec fn spec_has_control_channel(self) -> bool {
        self == DaemonKind::Zcashd
    }

    /// The name of the daemon's process and of its default program.
    pub fn process_name(self) -> (name: &'static str)
        ensures
            name@ == self.spec_process_name(),
    {
        match self {
            DaemonKind::Zcashd => "zcashd",
            DaemonKind::Zainod => "zainod",
        }
    }

    /// The bytes that the daemon writes to its log once it is ready.
    pub fn success_marker(self) -> (marker: &'static [u8])
        ensures
            marker@ == self.spec_success_marker(),
    {
        match self {
            DaemonKind::Zcashd => {
                proof {
                    reveal_strlit("init message: Done loading");
                }
                ascii_literal("init message: Done loading")
            },
            DaemonKind::Zainod => {
                proof {
                    reveal_strlit("Server Ready.");
                }
                ascii_literal("Server Ready.")
            },
        }
    }

    /// The name of the daemon's configuration file.
    pub fn config_file_name(self) -> (name: &'static str)
        ensures
            name@ == self.spec_config_file_name(),
    {
        match self {
            DaemonKind::Zcashd => "zcash.conf",
            DaemonKind::Zainod => "zindexer.toml",
        }
    }

    /// Whether the daemon can be asked to shut down by a control command.
    pub fn has_control_channel(self) -> (has: bool)
        ensures
            has == self.spec_has_control_channel(),
    {
        match self {
            DaemonKind::Zcashd => true,
            DaemonKind::Zainod => false,
        }
    }
}

/// The bytes of a text whose characters are all ASCII.
fn ascii_literal(text: &'static str) -> (bytes: &'static [u8])
    requires
        is_ascii(text),
    ensures
        bytes@ == ascii_bytes(text@),
{
    proof {
        is_ascii_spec_bytes(text);
    }
    text.as_bytes()
}

/// The bytes that either daemon writes to its log when it has met an error.
pub fn error_marker() -> (marker: &'static [u8])
    ensures
        marker@ == spec_error_marker(),
{
    proof {
        reveal_strlit("Error:");
    }
    ascii_literal("Error:")
}

/// The name of the file that holds a daemon's standard output.
pub fn stdout_log_name() -> (name: &'static str)
    ensures
        name@ == spec_stdout_log_name(),
{
    "stdout.log"
}

/// The name of the program that controls a running `zcashd`.
pub fn control_program() -> (name: &'static str)
    ensures
        name@ == spec_control_program(),
{
    "zcash-cli"
}

} // verus!
