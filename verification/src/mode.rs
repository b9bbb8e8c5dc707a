//! The switch between a live guard and a rehearsal.

use vstd::prelude::*;

verus! {

/// Whether a guard carries out the lockdown or only rehearses it.
#[derive(Clone, Copy, Debug, PartialEq, Eq, Structural)]
pub enum ArmMode {
    /// Every lockdown stage is carried out.
    Armed,
    /// Every lockdown stage is announced and nothing is touched.
    Test,
}

impl ArmMode {
    /// `true` exactly for `Armed`.
    pub fn is_armed(&self) -> (armed: bool)
        ensures
            armed == (*self == ArmMode::Armed),
    {
        match self {
            ArmMode::Armed => true,
            ArmMode::Test => false,
        }
    }
}

} // verus!
