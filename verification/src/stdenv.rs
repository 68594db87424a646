//! The standard build environment and the builder of package steps.

pub mod generic;
pub mod linux;

pub use generic::phases::{
    BuildPhase, BuildPhaseView, CheckPhase, CheckPhaseView, ConfigurePhase, ConfigurePhaseView,
    FixPhase, FixPhaseView, InstallCheckPhase, InstallCheckPhaseView, InstallPhase,
    InstallPhaseView, PatchPhase, PatchPhaseView, UnpackPhase, UnpackPhaseView,
};
pub use generic::{
    Deps, DepsView, Slot, StdenvBuilder, StdenvBuilderView, StdenvDrv, StdenvDrvView,
};

use std::ops::Deref;
use std::rc::Rc;
use vstd::prelude::*;

verus! {

/// A standard environment shared by the recipes that build against it.
pub struct Stdenv(pub Rc<StdenvDrv>);

impl View for Stdenv {
    type V = StdenvDrvView;

    open spec fn view(&self) -> StdenvDrvView {
        self.0@
    }
}

impl Stdenv {
    /// Shares `stdenv` among all that hold a copy of the result.
    pub fn new(stdenv: StdenvDrv) -> (s: Stdenv)
        ensures
            s@ == stdenv@,
    {
        Stdenv(Rc::new(stdenv))
    }
}

impl Clone for Stdenv {
    fn clone(&self) -> (s: Stdenv)
        ensures
            s == *self,
    {
        Stdenv(crate::drv::share(&self.0))
    }
}

impl Deref for Stdenv {
    type Target = StdenvDrv;

    fn deref(&self) -> (r: &StdenvDrv)
        ensures
            *r == *self.0,
    {
        &self.0
    }
}

} // verus!
