//! The terminal handle: the identity captured during the handshake, the
//! platform model it was captured under, and what follows from the two — the
//! device names to hand to a child-process spawner, and the attach behaviour.
//!
//! The handle's other half, the open connection kept as a liveness signal, is
//! plain socket I/O and stays with the caller that performed the rendezvous.

use vstd::prelude::*;

use crate::numeric::decimal_val;
use crate::numeric::is_decimal;
use crate::numeric::parse_u32;
use crate::text::trim_back;
use crate::text::trim_trailing;

verus! {

/// How the platform addresses a terminal.
#[derive(Clone, Copy, Debug, PartialEq, Eq, Structural)]
pub enum Platform {
    /// Terminals are named device files, reachable by any process.
    DeviceFile,
    /// Each process is bound to at most one console object at a time.
    ConsoleModel,
}

/// A terminal captured by the handshake: its identity line, trimmed of
/// trailing whitespace, and the platform model under which it was captured.
/// The identity is set at construction and never changes.
pub struct Terminal {
    platform: Platform,
    identity: String,
}

impl Terminal {
    /// The platform model this handle was built for.
    pub closed spec fn mode(&self) -> Platform {
        self.platform
    }

    /// The stored identity: on a device-file platform a device path, on a
    /// console-model platform the agent's decimal process id.
    pub closed spec fn identity(&self) -> Seq<char> {
        self.identity@
    }

    /// Builds the handle from the one line the agent sent: the line is
    /// trimmed of trailing whitespace — so of any line terminator — and
    /// stored, otherwise unaltered, as the identity.
    pub fn from_handshake_line(platform: Platform, line: &str) -> (t: Terminal)
        ensures
            t.mode() == platform,
            t.identity() == trim_back(line@),
    {
        Terminal { platform, identity: trim_trailing(line) }
    }

    /// The name to bind to a child's standard input: the identity itself on a
    /// device-file platform; the fixed symbolic input-console name, whatever
    /// the identity, on a console-model platform.
    pub fn input_devname(&self) -> (r: &str)
        ensures
            self.mode() == Platform::DeviceFile ==> r@ == self.identity(),
            self.mode() == Platform::ConsoleModel ==> r@ == "CONIN$"@,
    {
        match self.platform {
            Platform::DeviceFile => self.identity.as_str(),
            Platform::ConsoleModel => "CONIN$",
        }
    }

    /// The name to bind to a child's standard output: the identity itself on
    /// a device-file platform; the fixed symbolic output-console name,
    /// whatever the identity, on a console-model platform.
    pub fn output_devname(&self) -> (r: &str)
        ensures
            self.mode() == Platform::DeviceFile ==> r@ == self.identity(),
            self.mode() == Platform::ConsoleModel ==> r@ == "CONOUT$"@,
    {
        match self.platform {
            Platform::DeviceFile => self.identity.as_str(),
            Platform::ConsoleModel => "CONOUT$",
        }
    }

    /// The identity read as the agent's process id, for the console-model
    /// attach sequence. The identity comes from this library's own handshake,
    /// so a non-numeric value is a contract violation by the agent; it is
    /// reported as `None`, never guessed at.
    pub fn console_pid(&self) -> (r: Option<u32>)
        ensures
            match r {
                Some(pid) => is_decimal(self.identity()) && decimal_val(self.identity())
                    == pid as nat,
                None => !(is_decimal(self.identity()) && decimal_val(self.identity())
                    <= u32::MAX as nat),
            },
    {
        parse_u32(self.identity.as_str())
    }

    /// Runs `operation` against the terminal on a device-file platform: a
    /// pure passthrough. The operation is invoked exactly as it stands, its
    /// result returned unchanged, and no state of any kind is touched — the
    /// device file is reachable without rebinding anything. On a
    /// console-model platform the caller must instead wrap `operation`
    /// between the attach prologue and epilogue of [`crate::console`].
    pub fn attach<R, F: FnOnce() -> R>(&self, operation: F) -> (r: R)
        requires
            self.mode() == Platform::DeviceFile,
            call_requires(operation, ()),
        ensures
            call_ensures(operation, (), r),
    {
        operation()
    }
}

} // verus!
