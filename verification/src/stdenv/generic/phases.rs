//! The eight phases of a package build.
//!
//! Each phase is a switch, three hooks (before, instead of, after) and the
//! fields of its own. A phase that is switched off contributes no variable
//! at all, whatever else was set for it.

pub mod build_phase;
pub mod check;
pub mod configure;
pub mod fix;
pub mod install;
pub mod install_check;
pub mod patch;
pub mod unpack;

pub use build_phase::{BuildPhase, BuildPhaseView};
pub use check::{CheckPhase, CheckPhaseView};
pub use configure::{ConfigurePhase, ConfigurePhaseView};
pub use fix::{FixPhase, FixPhaseView};
pub use install::{InstallPhase, InstallPhaseView};
pub use install_check::{InstallCheckPhase, InstallCheckPhaseView};
pub use patch::{PatchPhase, PatchPhaseView};
pub use unpack::{UnpackPhase, UnpackPhaseView};
