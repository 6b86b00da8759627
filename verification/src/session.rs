//! The start/wait lifecycle of a flashing session.
//!
//! A session materializes three artifacts in an exclusively-owned workspace
//! — the firmware image, the device configuration and the batch script —
//! then spawns the vendor flasher on the configuration and batch paths.
//! This module holds the verified core of that lifecycle: the exact plan of
//! paths, byte contents and argument vector for a given workspace
//! (`plan_start`), the step-by-step outcome rules of `start` including which
//! failures release the workspace (`start_advance`), and a model of the
//! running session that pins down when the workspace may be removed
//! (`SessionModel`).  The filesystem writes and the process spawn that
//! consume a plan live outside the library.

use vstd::prelude::*;
use vstd::string::StringExecFns;

use crate::batch::{spec_batch, render_batch, Mode};
use crate::config::{spec_cfg, create_cfg};

verus! {

/// What can go wrong while bringing a session up or waiting on it.
#[derive(Clone, Copy, Debug, PartialEq, Eq, Structural)]
pub enum FlashError {
    /// The temporary workspace directory could not be created.
    WorkspaceUnavailable,
    /// The firmware, configuration or batch file could not be written.
    ArtifactWriteFailed,
    /// The flasher executable could not be spawned.
    FlasherNotStartable,
    /// The flasher terminated with a non-success status.
    FlasherFailed,
}

/// The steps `start` performs, in order.
#[derive(Clone, Copy, Debug, PartialEq, Eq, Structural)]
pub enum StartStep {
    /// Create the exclusively-owned temporary directory.
    AllocateWorkspace,
    /// Write the firmware bytes to `input.hex`.
    WriteFirmware,
    /// Write the rendered configuration to `temp_config.cfg`.
    WriteConfig,
    /// Write the rendered batch script to `batch.mtb`.
    WriteBatch,
    /// Spawn the flasher on the configuration and batch paths.
    SpawnFlasher,
}

/// What `start` does after one of its steps has succeeded or failed.
#[derive(Clone, Copy, Debug, PartialEq, Eq, Structural)]
pub enum StartOutcome {
    /// Go on with the named step.
    Proceed { next: StartStep },
    /// Give up with this error; release the workspace first when one was
    /// already allocated.
    Abort { error: FlashError, release_workspace: bool },
    /// All steps succeeded: the session now owns workspace and child.
    Started,
}

/// The outcome rules of `start`: which step follows which, which error each
/// failing step surfaces, and that every failure past workspace allocation
/// releases the workspace.
pub open spec fn spec_start_advance(step: StartStep, ok: bool) -> StartOutcome {
    match step {
        StartStep::AllocateWorkspace => if ok {
            StartOutcome::Proceed { next: StartStep::WriteFirmware }
        } else {
            StartOutcome::Abort {
                error: FlashError::WorkspaceUnavailable,
                release_workspace: false,
            }
        },
        StartStep::WriteFirmware => if ok {
            StartOutcome::Proceed { next: StartStep::WriteConfig }
        } else {
            StartOutcome::Abort { error: FlashError::ArtifactWriteFailed, release_workspace: true }
        },
        StartStep::WriteConfig => if ok {
            StartOutcome::Proceed { next: StartStep::WriteBatch }
        } else {
            StartOutcome::Abort { error: FlashError::ArtifactWriteFailed, release_workspace: true }
        },
        StartStep::WriteBatch => if ok {
            StartOutcome::Proceed { next: StartStep::SpawnFlasher }
        } else {
            StartOutcome::Abort { error: FlashError::ArtifactWriteFailed, release_workspace: true }
        },
        StartStep::SpawnFlasher => if ok {
            StartOutcome::Started
        } else {
            StartOutcome::Abort { error: FlashError::FlasherNotStartable, release_workspace: true }
        },
    }
}

/// Advances `start` by one step.
pub fn start_advance(step: StartStep, ok: bool) -> (r: StartOutcome)
    ensures
        r == spec_start_advance(step, ok),
{
    match step {
        StartStep::AllocateWorkspace => if ok {
            StartOutcome::Proceed { next: StartStep::WriteFirmware }
        } else {
            StartOutcome::Abort {
                error: FlashError::WorkspaceUnavailable,
                release_workspace: false,
            }
        },
        StartStep::WriteFirmware => if ok {
            StartOutcome::Proceed { next: StartStep::WriteConfig }
        } else {
            StartOutcome::Abort { error: FlashError::ArtifactWriteFailed, release_workspace: true }
        },
        StartStep::WriteConfig => if ok {
            StartOutcome::Proceed { next: StartStep::WriteBatch }
        } else {
            StartOutcome::Abort { error: FlashError::ArtifactWriteFailed, release_workspace: true }
        },
        StartStep::WriteBatch => if ok {
            StartOutcome::Proceed { next: StartStep::SpawnFlasher }
        } else {
            StartOutcome::Abort { error: FlashError::ArtifactWriteFailed, release_workspace: true }
        },
        StartStep::SpawnFlasher => if ok {
            StartOutcome::Started
        } else {
            StartOutcome::Abort { error: FlashError::FlasherNotStartable, release_workspace: true }
        },
    }
}

/// A failed artifact write — firmware, configuration or batch — always
/// surfaces `ArtifactWriteFailed` and always releases the workspace.
pub proof fn lemma_write_failure_releases_workspace(step: StartStep)
    requires
        step is WriteFirmware || step is WriteConfig || step is WriteBatch,
    ensures
        spec_start_advance(step, false) == (StartOutcome::Abort {
            error: FlashError::ArtifactWriteFailed,
            release_workspace: true,
        }),
{
}

/// Composes the path of a workspace artifact from the workspace path and
/// the artifact's file name; the result stays inside the workspace.
pub fn artifact_path(workspace: &str, name: &str) -> (r: String)
    ensures
        r@ == workspace@ + "/"@ + name@,
        r@.subrange(0, workspace@.len() as int) == workspace@,
{
    let mut s = String::from_str(workspace);
    s.append("/");
    s.append(name);
    proof {
        assert((workspace@ + "/"@ + name@).subrange(0, workspace@.len() as int) =~= workspace@);
    }
    s
}

/// The argument vector the flasher is spawned with: exactly
/// `-c <config-path> <batch-path>`, in that order.
pub fn flasher_argv(config_path: &str, batch_path: &str) -> (r: Vec<String>)
    ensures
        r@.len() == 3,
        r@[0]@ == "-c"@,
        r@[1]@ == config_path@,
        r@[2]@ == batch_path@,
{
    let mut v: Vec<String> = Vec::new();
    v.push(String::from_str("-c"));
    v.push(String::from_str(config_path));
    v.push(String::from_str(batch_path));
    v
}

/// Everything `start` must put on disk and hand to the flasher, for one
/// session: three artifact paths with their byte-exact contents, and the
/// argument vector.
pub struct StartPlan {
    /// Path of the firmware image inside the workspace.
    pub firmware_path: String,
    /// The firmware bytes, passed through verbatim.
    pub firmware_contents: String,
    /// Path of the device configuration inside the workspace.
    pub config_path: String,
    /// The rendered device configuration.
    pub config_contents: String,
    /// Path of the batch script inside the workspace.
    pub batch_path: String,
    /// The rendered batch script; it references `firmware_path`.
    pub batch_contents: String,
    /// The flasher's argument vector: `-c <config_path> <batch_path>`.
    pub argv: Vec<String>,
}

/// Plans a session inside the given workspace: fixes the three artifact
/// paths, renders the configuration from the port and the batch script from
/// the mode and the firmware path, and lays out the argument vector.
pub fn plan_start(workspace: &str, firmware: &str, mode: Mode, udas_port: usize) -> (r: StartPlan)
    ensures
        r.firmware_path@ == workspace@ + "/"@ + "input.hex"@,
        r.firmware_contents@ == firmware@,
        r.config_path@ == workspace@ + "/"@ + "temp_config.cfg"@,
        r.config_contents@ == spec_cfg(udas_port as nat),
        r.batch_path@ == workspace@ + "/"@ + "batch.mtb"@,
        r.batch_contents@ == spec_batch(mode, r.firmware_path@),
        r.argv@.len() == 3,
        r.argv@[0]@ == "-c"@,
        r.argv@[1]@ == r.config_path@,
        r.argv@[2]@ == r.batch_path@,
{
    let firmware_path = artifact_path(workspace, "input.hex");
    let config_path = artifact_path(workspace, "temp_config.cfg");
    let batch_path = artifact_path(workspace, "batch.mtb");
    let config_contents = create_cfg(udas_port);
    let batch_contents = render_batch(mode, firmware_path.as_str());
    let argv = flasher_argv(config_path.as_str(), batch_path.as_str());
    StartPlan {
        firmware_path,
        firmware_contents: String::from_str(firmware),
        config_path,
        config_contents,
        batch_path,
        batch_contents,
        argv,
    }
}

/// Where a running session stands.
#[derive(Clone, Copy, Debug, PartialEq, Eq, Structural)]
pub enum SessionPhase {
    /// The flasher child is alive (or at least has not been waited on).
    Spawned,
    /// The child was waited on and exited successfully.
    Terminated,
    /// The child was waited on and exited with a non-success status; this
    /// is fatal.
    Failed,
    /// The session was released without a wait; the child, if still
    /// running, is left alone.
    Abandoned,
}

/// A model of one session's resource state: the phase of the child and
/// whether the workspace directory has been removed.  Well-formed states
/// never release the workspace while the child may still read from it.
#[derive(Clone, Copy, Debug, PartialEq, Eq, Structural)]
pub struct SessionModel {
    /// The phase of the flasher child.
    pub phase: SessionPhase,
    /// Whether the workspace directory has been removed.
    pub workspace_released: bool,
}

impl SessionModel {
    /// The workspace outlives the child: it is never released while the
    /// session is still in the spawned phase.
    pub open spec fn wf(self) -> bool {
        self.workspace_released ==> !(self.phase is Spawned)
    }

    /// A freshly started session: child spawned, workspace on disk.
    pub fn spawned() -> (s: Self)
        ensures
            s.phase is Spawned,
            !s.workspace_released,
            s.wf(),
    {
        SessionModel { phase: SessionPhase::Spawned, workspace_released: false }
    }

    /// Waits on the child.  A successful exit terminates the session; a
    /// non-success exit is fatal.  The workspace stays on disk either way
    /// until the session is released.
    pub fn wait(self, exit_success: bool) -> (s: Self)
        requires
            self.phase is Spawned,
            !self.workspace_released,
        ensures
            s.phase == (if exit_success {
                SessionPhase::Terminated
            } else {
                SessionPhase::Failed
            }),
            !s.workspace_released,
            s.wf(),
    {
        SessionModel {
            phase: if exit_success {
                SessionPhase::Terminated
            } else {
                SessionPhase::Failed
            },
            workspace_released: false,
        }
    }

    /// The diagnostic a session carries: a session in the failed phase —
    /// and only such a session — reports that the flasher terminated with
    /// a non-success status, which is fatal.
    pub fn error(self) -> (r: Option<FlashError>)
        ensures
            r == (if self.phase is Failed {
                Some(FlashError::FlasherFailed)
            } else {
                None::<FlashError>
            }),
    {
        match self.phase {
            SessionPhase::Failed => Some(FlashError::FlasherFailed),
            _ => None,
        }
    }

    /// Releases the session: the workspace is removed.  A session released
    /// without a wait is abandoned — its child is not terminated — and a
    /// waited-on session keeps its final phase.
    pub fn release(self) -> (s: Self)
        requires
            !self.workspace_released,
        ensures
            s.phase == (if self.phase is Spawned {
                SessionPhase::Abandoned
            } else {
                self.phase
            }),
            s.workspace_released,
            s.wf(),
    {
        SessionModel {
            phase: match self.phase {
                SessionPhase::Spawned => SessionPhase::Abandoned,
                p => p,
            },
            workspace_released: true,
        }
    }
}

/// The workspace path is still present on disk while the child is alive:
/// in every well-formed session state whose child is merely spawned, the
/// workspace has not been removed.
pub proof fn lemma_workspace_outlives_child(s: SessionModel)
    requires
        s.wf(),
        s.phase is Spawned,
    ensures
        !s.workspace_released,
{
}

} // verus!
