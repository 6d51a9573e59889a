//! The envelope's stage machine: what each stage does to the level on one
//! sample, and which stage follows once that step reaches its target.

use crate::AdsrState;
use vstd::prelude::*;

verus! {

/// What one envelope step does to the level.
#[derive(Clone, Copy, Debug, PartialEq, Eq, Structural)]
pub enum EnvelopeStep {
    /// The level is forced to zero.
    Silence,
    /// The level rises by `1 / attack_time` per second until it reaches the peak `1`.
    RiseToPeak,
    /// The level falls by `(1 - sustain_lvl) / decay_time` per second until it
    /// reaches the sustain level.
    FallToSustain,
    /// The level is left as it is.
    Hold,
    /// The level falls by `sustain_lvl / release_time` per second until it reaches zero.
    FallToZero,
}

/// The step that a stage performs on each sample.
pub open spec fn stage_step(stage: AdsrState) -> EnvelopeStep {
    match stage {
        AdsrState::Idle => EnvelopeStep::Silence,
        AdsrState::Attack => EnvelopeStep::RiseToPeak,
        AdsrState::Decay => EnvelopeStep::FallToSustain,
        AdsrState::Sustain => EnvelopeStep::Hold,
        AdsrState::Release => EnvelopeStep::FallToZero,
    }
}

/// The stage after one step of `stage`, where `target_reached` tells whether the
/// step's level reached (or passed) its target.
pub open spec fn stage_after(stage: AdsrState, target_reached: bool) -> AdsrState {
    if !target_reached {
        stage
    } else {
        match stage {
            AdsrState::Attack => AdsrState::Decay,
            AdsrState::Decay => AdsrState::Sustain,
            AdsrState::Release => AdsrState::Idle,
            _ => stage,
        }
    }
}

impl AdsrState {
    /// The step this stage performs on the level for one sample.
    pub fn step(self) -> (r: EnvelopeStep)
        ensures
            r == stage_step(self),
            self == AdsrState::Idle <==> r == EnvelopeStep::Silence,
            self == AdsrState::Attack <==> r == EnvelopeStep::RiseToPeak,
            self == AdsrState::Decay <==> r == EnvelopeStep::FallToSustain,
            self == AdsrState::Sustain <==> r == EnvelopeStep::Hold,
            self == AdsrState::Release <==> r == EnvelopeStep::FallToZero,
    {
        match self {
            AdsrState::Idle => EnvelopeStep::Silence,
            AdsrState::Attack => EnvelopeStep::RiseToPeak,
            AdsrState::Decay => EnvelopeStep::FallToSustain,
            AdsrState::Sustain => EnvelopeStep::Hold,
            AdsrState::Release => EnvelopeStep::FallToZero,
        }
    }

    /// The stage that follows one step: attack gives way to decay once the
    /// peak is reached, decay to sustain once the sustain level is reached, and
    /// release to idle once the level reaches zero. Otherwise the stage stays.
    pub fn after_step(self, target_reached: bool) -> (r: AdsrState)
        ensures
            r == stage_after(self, target_reached),
            !target_reached ==> r == self,
            self == AdsrState::Idle || self == AdsrState::Sustain ==> r == self,
            target_reached && self == AdsrState::Attack ==> r == AdsrState::Decay,
            target_reached && self == AdsrState::Decay ==> r == AdsrState::Sustain,
            target_reached && self == AdsrState::Release ==> r == AdsrState::Idle,
    {
        if !target_reached {
            return self;
        }
        match self {
            AdsrState::Attack => AdsrState::Decay,
            AdsrState::Decay => AdsrState::Sustain,
            AdsrState::Release => AdsrState::Idle,
            _ => self,
        }
    }

    /// The stage after a gate opens (a note starts): always the attack.
    pub fn trigger_on(self) -> (r: AdsrState)
        ensures
            r == AdsrState::Attack,
    {
        AdsrState::Attack
    }

    /// The stage after a gate closes (a note ends): always the release.
    pub fn trigger_off(self) -> (r: AdsrState)
        ensures
            r == AdsrState::Release,
    {
        AdsrState::Release
    }
}

} // verus!
