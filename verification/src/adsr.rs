//! The phase machine of the ADSR envelope.
//!
//! An envelope step first changes its level (a sample value in [0, 1]) and then
//! decides its next phase. The level arithmetic is done by the caller; this
//! module decides which change is made, which comparison the caller has to make
//! after the change, and how the phase moves on.
use vstd::prelude::*;

verus! {

/// Phase of an ADSR envelope.
#[derive(Debug, Clone, Copy, PartialEq, Eq, Structural)]
pub enum ADSRPhase {
    Attack,
    Decay,
    Sustain,
    Release,
    Idle,
}

/// The change an envelope step makes to the level, before the level is
/// clamped to [0, 1].
#[derive(Debug, Clone, Copy, PartialEq, Eq, Structural)]
pub enum LevelUpdate {
    /// The level stays as it is.
    Keep,
    /// The level becomes 1.
    Full,
    /// The level grows by `step / attack`.
    RiseByAttack,
    /// The level becomes the sustain level.
    ToSustain,
    /// The level falls by `step / (decay * (1 - sustain))`.
    FallByDecay,
    /// The level falls by `step / release`.
    FallByRelease,
    /// The level becomes 0.
    Silence,
}

/// The comparison the caller makes on the level once it has been changed.
#[derive(Debug, Clone, Copy, PartialEq, Eq, Structural)]
pub enum SettleCheck {
    /// No comparison: the phase does not depend on the new level.
    NoCheck,
    /// Has the level reached 1 (`level >= 1`)?
    ReachedPeak,
    /// Has the level come down to the sustain level (`level <= sustain`)?
    ReachedSustain,
}

/// What the caller observes of the envelope's parameters and level before a step.
#[derive(Debug, Clone, Copy, PartialEq, Eq, Structural)]
pub struct LevelFacts {
    /// `attack < f32::EPSILON`
    pub attack_negligible: bool,
    /// `decay * (1 - sustain) < f32::EPSILON`
    pub decay_slope_negligible: bool,
    /// `release * sustain < f32::EPSILON`
    pub release_slope_negligible: bool,
    /// `level > 0`
    pub sounding: bool,
}

/// What one step does to the level.
#[derive(Debug, Clone, Copy, PartialEq, Eq, Structural)]
pub struct StepPlan {
    pub update: LevelUpdate,
    pub check: SettleCheck,
}

/// Whether an ADSR envelope is gated, and its phase.
#[derive(Debug, Clone, Copy, PartialEq, Eq, Structural)]
pub struct AdsrControl {
    pub is_gated: bool,
    pub phase: ADSRPhase,
}

/// The level change of a step in `phase` while gated or not (`gated`).
pub open spec fn spec_level_update(phase: ADSRPhase, gated: bool, facts: LevelFacts) -> LevelUpdate {
    if gated {
        match phase {
            ADSRPhase::Idle => LevelUpdate::Keep,
            ADSRPhase::Attack => if facts.attack_negligible {
                LevelUpdate::Full
            } else {
                LevelUpdate::RiseByAttack
            },
            ADSRPhase::Decay => if facts.decay_slope_negligible {
                LevelUpdate::ToSustain
            } else {
                LevelUpdate::FallByDecay
            },
            ADSRPhase::Sustain => LevelUpdate::ToSustain,
            ADSRPhase::Release => LevelUpdate::Keep,
        }
    } else if facts.sounding {
        if facts.release_slope_negligible {
            LevelUpdate::Silence
        } else {
            LevelUpdate::FallByRelease
        }
    } else {
        LevelUpdate::Silence
    }
}

/// The comparison made after the level change of a step.
pub open spec fn spec_settle_check(phase: ADSRPhase, gated: bool) -> SettleCheck {
    if gated && phase == ADSRPhase::Attack {
        SettleCheck::ReachedPeak
    } else if gated && phase == ADSRPhase::Decay {
        SettleCheck::ReachedSustain
    } else {
        SettleCheck::NoCheck
    }
}

/// The phase after a step, where `sounding` is whether the level was above 0
/// before the step and `settled` the answer to the step's settle check.
pub open spec fn spec_next_phase(phase: ADSRPhase, gated: bool, sounding: bool, settled: bool) -> ADSRPhase {
    if gated {
        match phase {
            ADSRPhase::Idle => ADSRPhase::Attack,
            ADSRPhase::Attack => if settled {
                ADSRPhase::Decay
            } else {
                ADSRPhase::Attack
            },
            ADSRPhase::Decay => if settled {
                ADSRPhase::Sustain
            } else {
                ADSRPhase::Decay
            },
            ADSRPhase::Sustain => ADSRPhase::Sustain,
            ADSRPhase::Release => ADSRPhase::Idle,
        }
    } else if sounding {
        ADSRPhase::Release
    } else {
        ADSRPhase::Idle
    }
}

/// Whether a step ends by setting the level to the sustain level: the decay
/// has come down to it.
pub open spec fn spec_snaps_to_sustain(phase: ADSRPhase, gated: bool, settled: bool) -> bool {
    gated && phase == ADSRPhase::Decay && settled
}

/// Order of the phases that a held note goes through.
pub open spec fn held_rank(phase: ADSRPhase) -> int {
    match phase {
        ADSRPhase::Idle => 0,
        ADSRPhase::Attack => 1,
        ADSRPhase::Decay => 2,
        ADSRPhase::Sustain => 3,
        ADSRPhase::Release => 4,
    }
}

impl AdsrControl {
    /// Not gated, in the idle phase.
    pub fn new() -> (s: Self)
        ensures
            !s.is_gated,
            s.phase == ADSRPhase::Idle,
    {
        AdsrControl { is_gated: false, phase: ADSRPhase::Idle }
    }

    /// Gates the envelope on; the phase is left as it is.
    pub fn gate_on(&mut self)
        ensures
            final(self).is_gated,
            final(self).phase == old(self).phase,
    {
        self.is_gated = true;
    }

    /// Gates the envelope off; the phase is left as it is.
    pub fn gate_off(&mut self)
        ensures
            !final(self).is_gated,
            final(self).phase == old(self).phase,
    {
        self.is_gated = false;
    }

    /// Gates the envelope on or off as `gate_val` says; the phase is left as it is.
    pub fn set_gate(&mut self, gate_val: bool)
        ensures
            final(self).is_gated == gate_val,
            final(self).phase == old(self).phase,
    {
        self.is_gated = gate_val;
    }

    /// Returns to the idle phase; whether it is gated is left as it is.
    pub fn reset(&mut self)
        ensures
            final(self).is_gated == old(self).is_gated,
            final(self).phase == ADSRPhase::Idle,
    {
        self.phase = ADSRPhase::Idle;
    }

    /// What the next step does to the level.
    pub fn plan_step(&self, facts: LevelFacts) -> (plan: StepPlan)
        ensures
            plan.update == spec_level_update(self.phase, self.is_gated, facts),
            plan.check == spec_settle_check(self.phase, self.is_gated),
            self.is_gated && self.phase == ADSRPhase::Attack ==> (plan.update == LevelUpdate::Full
                || plan.update == LevelUpdate::RiseByAttack) && (plan.update == LevelUpdate::Full
                <==> facts.attack_negligible),
            self.is_gated && self.phase == ADSRPhase::Decay ==> (plan.update == LevelUpdate::ToSustain
                || plan.update == LevelUpdate::FallByDecay) && (plan.update == LevelUpdate::ToSustain
                <==> facts.decay_slope_negligible),
            !self.is_gated && facts.sounding ==> (plan.update == LevelUpdate::Silence
                || plan.update == LevelUpdate::FallByRelease) && (plan.update == LevelUpdate::Silence
                <==> facts.release_slope_negligible),
            !self.is_gated && !facts.sounding ==> plan.update == LevelUpdate::Silence,
            (plan.check == SettleCheck::ReachedPeak) <==> (self.is_gated && self.phase
                == ADSRPhase::Attack),
            (plan.check == SettleCheck::ReachedSustain) <==> (self.is_gated && self.phase
                == ADSRPhase::Decay),
    {
        let update = if self.is_gated {
            match self.phase {
                ADSRPhase::Idle => LevelUpdate::Keep,
                ADSRPhase::Attack => if facts.attack_negligible {
                    LevelUpdate::Full
                } else {
                    LevelUpdate::RiseByAttack
                },
                ADSRPhase::Decay => if facts.decay_slope_negligible {
                    LevelUpdate::ToSustain
                } else {
                    LevelUpdate::FallByDecay
                },
                ADSRPhase::Sustain => LevelUpdate::ToSustain,
                ADSRPhase::Release => LevelUpdate::Keep,
            }
        } else if facts.sounding {
            if facts.release_slope_negligible {
                LevelUpdate::Silence
            } else {
                LevelUpdate::FallByRelease
            }
        } else {
            LevelUpdate::Silence
        };
        let check = match self.phase {
            ADSRPhase::Attack if self.is_gated => SettleCheck::ReachedPeak,
            ADSRPhase::Decay if self.is_gated => SettleCheck::ReachedSustain,
            _ => SettleCheck::NoCheck,
        };
        StepPlan { update, check }
    }

    /// Moves the phase on after the level change of a step. `sounding` is
    /// whether the level was above 0 before the step, `settled` the answer to
    /// the step's settle check. Returns whether the level is then set to the
    /// sustain level.
    pub fn finish_step(&mut self, sounding: bool, settled: bool) -> (snap: bool)
        ensures
            final(self).is_gated == old(self).is_gated,
            final(self).phase == spec_next_phase(old(self).phase, old(self).is_gated, sounding, settled),
            snap == spec_snaps_to_sustain(old(self).phase, old(self).is_gated, settled),
            old(self).is_gated && old(self).phase == ADSRPhase::Idle ==> final(self).phase == ADSRPhase::Attack,
            old(self).is_gated && old(self).phase == ADSRPhase::Attack ==> final(self).phase == (if settled {
                ADSRPhase::Decay
            } else {
                ADSRPhase::Attack
            }),
            old(self).is_gated && old(self).phase == ADSRPhase::Decay ==> final(self).phase == (if settled {
                ADSRPhase::Sustain
            } else {
                ADSRPhase::Decay
            }),
            old(self).is_gated && old(self).phase == ADSRPhase::Sustain ==> final(self).phase == ADSRPhase::Sustain,
            old(self).is_gated && old(self).phase == ADSRPhase::Release ==> final(self).phase == ADSRPhase::Idle,
            !old(self).is_gated ==> final(self).phase == (if sounding {
                ADSRPhase::Release
            } else {
                ADSRPhase::Idle
            }),
            snap <==> (old(self).is_gated && old(self).phase == ADSRPhase::Decay && settled),
    {
        let mut snap = false;
        if self.is_gated {
            match self.phase {
                ADSRPhase::Idle => {
                    self.phase = ADSRPhase::Attack;
                },
                ADSRPhase::Attack => {
                    if settled {
                        self.phase = ADSRPhase::Decay;
                    }
                },
                ADSRPhase::Decay => {
                    if settled {
                        self.phase = ADSRPhase::Sustain;
                        snap = true;
                    }
                },
                ADSRPhase::Sustain => {},
                ADSRPhase::Release => {
                    self.phase = ADSRPhase::Idle;
                },
            }
        } else if sounding {
            self.phase = ADSRPhase::Release;
        } else {
            self.phase = ADSRPhase::Idle;
        }
        snap
    }
}

/// While the envelope is gated on, a step never skips a phase of attack, decay and
/// sustain and never goes back to an earlier one; only a release that was
/// under way when it was gated on goes back to idle.
pub proof fn lemma_held_note_advances_in_order(phase: ADSRPhase, sounding: bool, settled: bool)
    requires
        phase != ADSRPhase::Release,
    ensures
        ({
            let next = spec_next_phase(phase, true, sounding, settled);
            held_rank(next) == held_rank(phase) || held_rank(next) == held_rank(phase) + 1
        }),
        held_rank(spec_next_phase(phase, true, sounding, settled)) <= 3,
{
}

/// The attack ramps the level up over the attack time: a gated attack step
/// jumps to full level exactly when the attack time is negligible, and
/// otherwise rises by `step / attack`, whatever the decay, sustain and release.
pub proof fn lemma_attack_ramps(f1: LevelFacts, f2: LevelFacts)
    ensures
        spec_level_update(ADSRPhase::Attack, true, f1) == LevelUpdate::Full
            || spec_level_update(ADSRPhase::Attack, true, f1) == LevelUpdate::RiseByAttack,
        (spec_level_update(ADSRPhase::Attack, true, f1) == LevelUpdate::Full) <==> f1.attack_negligible,
        f1.attack_negligible == f2.attack_negligible ==> spec_level_update(ADSRPhase::Attack, true, f1)
            == spec_level_update(ADSRPhase::Attack, true, f2),
{
}

/// The decay takes the level down to the sustain level over the decay time: a
/// gated decay step drops straight to the sustain level exactly when the decay
/// slope `decay * (1 - sustain)` is negligible, and otherwise falls by
/// `step / (decay * (1 - sustain))`, whatever the attack and release.
pub proof fn lemma_decay_falls_to_sustain(f1: LevelFacts, f2: LevelFacts)
    ensures
        spec_level_update(ADSRPhase::Decay, true, f1) == LevelUpdate::ToSustain
            || spec_level_update(ADSRPhase::Decay, true, f1) == LevelUpdate::FallByDecay,
        (spec_level_update(ADSRPhase::Decay, true, f1) == LevelUpdate::ToSustain)
            <==> f1.decay_slope_negligible,
        f1.decay_slope_negligible == f2.decay_slope_negligible ==> spec_level_update(
            ADSRPhase::Decay,
            true,
            f1,
        ) == spec_level_update(ADSRPhase::Decay, true, f2),
{
}

/// A note that is let go fades out over the release time: gated off while
/// sounding, the level is cut to 0 exactly when the release slope
/// `release * sustain` is negligible, and otherwise falls by `step / release`,
/// whatever the phase, the attack and the decay.
pub proof fn lemma_release_fades(p1: ADSRPhase, p2: ADSRPhase, f1: LevelFacts, f2: LevelFacts)
    requires
        f1.sounding,
        f2.sounding,
    ensures
        spec_level_update(p1, false, f1) == LevelUpdate::Silence || spec_level_update(p1, false, f1)
            == LevelUpdate::FallByRelease,
        (spec_level_update(p1, false, f1) == LevelUpdate::Silence) <==> f1.release_slope_negligible,
        f1.release_slope_negligible == f2.release_slope_negligible ==> spec_level_update(p1, false, f1)
            == spec_level_update(p2, false, f2),
{
}

/// Only the attack and the decay compare the level after the change: the
/// attack with the peak, the decay with the sustain level.
pub proof fn lemma_settle_checks(phase: ADSRPhase, gated: bool)
    ensures
        (spec_settle_check(phase, gated) == SettleCheck::ReachedPeak) <==> (gated && phase
            == ADSRPhase::Attack),
        (spec_settle_check(phase, gated) == SettleCheck::ReachedSustain) <==> (gated && phase
            == ADSRPhase::Decay),
{
}

/// A gated attack ends exactly when the level has reached the peak, and a gated
/// decay exactly when it has come down to the sustain level; until then the
/// phase stays.
pub proof fn lemma_attack_and_decay_end_when_settled(sounding: bool, settled: bool)
    ensures
        (spec_next_phase(ADSRPhase::Attack, true, sounding, settled) == ADSRPhase::Decay) <==> settled,
        !settled ==> spec_next_phase(ADSRPhase::Attack, true, sounding, settled) == ADSRPhase::Attack,
        (spec_next_phase(ADSRPhase::Decay, true, sounding, settled) == ADSRPhase::Sustain) <==> settled,
        !settled ==> spec_next_phase(ADSRPhase::Decay, true, sounding, settled) == ADSRPhase::Decay,
{
}

/// A release interrupted by a new note restarts from idle.
pub proof fn lemma_gated_release_restarts(sounding: bool, settled: bool, facts: LevelFacts)
    ensures
        spec_next_phase(ADSRPhase::Release, true, sounding, settled) == ADSRPhase::Idle,
        spec_level_update(ADSRPhase::Release, true, facts) == LevelUpdate::Keep,
{
}

/// Gating an idle envelope on takes it into the attack without touching the level.
pub proof fn lemma_gate_starts_attack(sounding: bool, settled: bool, facts: LevelFacts)
    ensures
        spec_next_phase(ADSRPhase::Idle, true, sounding, settled) == ADSRPhase::Attack,
        spec_level_update(ADSRPhase::Idle, true, facts) == LevelUpdate::Keep,
{
}

/// The sustain phase holds the sustain level for as long as the envelope is gated on.
pub proof fn lemma_sustain_holds(sounding: bool, settled: bool, facts: LevelFacts)
    ensures
        spec_next_phase(ADSRPhase::Sustain, true, sounding, settled) == ADSRPhase::Sustain,
        spec_level_update(ADSRPhase::Sustain, true, facts) == LevelUpdate::ToSustain,
{
}

/// Gated off, a sounding envelope is in release and falls (or is
/// silenced at once where the release slope is negligible); a silent one is idle
/// at level 0. Whatever the phase was.
pub proof fn lemma_closed_gate_winds_down(phase: ADSRPhase, sounding: bool, settled: bool, facts: LevelFacts)
    ensures
        spec_next_phase(phase, false, sounding, settled) == (if sounding {
            ADSRPhase::Release
        } else {
            ADSRPhase::Idle
        }),
        spec_level_update(phase, false, facts) == LevelUpdate::Silence || spec_level_update(
            phase,
            false,
            facts,
        ) == LevelUpdate::FallByRelease,
        !facts.sounding ==> spec_level_update(phase, false, facts) == LevelUpdate::Silence,
        spec_settle_check(phase, false) == SettleCheck::NoCheck,
{
}

/// A held note that starts idle is in sustain after three steps whose settle
/// checks succeed: idle, attack, decay, sustain.
pub proof fn lemma_held_note_reaches_sustain(s1: bool, s2: bool, s3: bool)
    ensures
        spec_next_phase(
            spec_next_phase(spec_next_phase(ADSRPhase::Idle, true, s1, true), true, s2, true),
            true,
            s3,
            true,
        ) == ADSRPhase::Sustain,
{
}

/// The level is set to the sustain level at the end of a step exactly when the
/// step ends the decay.
pub proof fn lemma_snap_ends_decay(phase: ADSRPhase, gated: bool, sounding: bool, settled: bool)
    ensures
        spec_snaps_to_sustain(phase, gated, settled) <==> (phase == ADSRPhase::Decay
            && spec_next_phase(phase, gated, sounding, settled) == ADSRPhase::Sustain),
{
}

} // verus!
