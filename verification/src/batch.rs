//! Rendering of the flasher's batch-script artifact.
//!
//! The batch script is a newline-separated list of commands that the vendor
//! flasher executes unattended.  A full programming run connects, opens the
//! firmware file, selects and adds every section, programs, disconnects and
//! exits.  A halted run only connects and opens the file, then yields to an
//! interactive operator.  The firmware path is substituted as a bare token.

use vstd::prelude::*;
use vstd::string::StringExecFns;

verus! {

/// How far the flasher is driven once it has the firmware open.
#[derive(Clone, Copy, Debug, PartialEq, Eq, Structural)]
pub enum Mode {
    /// Program every section of the firmware and exit.
    FullProgram,
    /// Stop after opening the firmware and leave the tool to the operator.
    HaltAfterOpen,
}

/// The rendered batch script: each command on its own line, with the
/// firmware path as the bare argument of `open_file`.  A full run carries
/// the seven commands through `exit` and no trailing newline; a halted run
/// ends after the `open_file` line.
pub open spec fn spec_batch(mode: Mode, firmware_path: Seq<char>) -> Seq<char> {
    match mode {
        Mode::FullProgram => "connect"@ + "\n"@ + "open_file "@ + firmware_path + "\n"@
            + "select_all_sections"@ + "\n"@ + "add_selected_sections"@ + "\n"@ + "program"@
            + "\n"@ + "disconnect"@ + "\n"@ + "exit"@,
        Mode::HaltAfterOpen => "connect"@ + "\n"@ + "open_file "@ + firmware_path + "\n"@,
    }
}

/// Renders the batch script for the given mode and firmware path.
pub fn render_batch(mode: Mode, firmware_path: &str) -> (r: String)
    ensures
        r@ == spec_batch(mode, firmware_path@),
{
    match mode {
        Mode::FullProgram => {
            let mut s = String::from_str("connect");
            s.append("\n");
            s.append("open_file ");
            s.append(firmware_path);
            s.append("\n");
            s.append("select_all_sections");
            s.append("\n");
            s.append("add_selected_sections");
            s.append("\n");
            s.append("program");
            s.append("\n");
            s.append("disconnect");
            s.append("\n");
            s.append("exit");
            s
        },
        Mode::HaltAfterOpen => {
            let mut s = String::from_str("connect");
            s.append("\n");
            s.append("open_file ");
            s.append(firmware_path);
            s.append("\n");
            s
        },
    }
}

} // verus!
