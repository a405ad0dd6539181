use vstd::prelude::*;

use crate::agents::InterviewerRole;

verus! {

/// Phases of an interview, in the only order in which they are visited.
#[derive(Debug, Clone, Copy, PartialEq, Eq, Structural)]
pub enum InterviewPhase {
    WarmUp,
    Technical,
    Behavioral,
    Business,
    Questions,
    Completed,
}

/// The phase that follows `p`; `Completed` is terminal.
pub open spec fn next_phase(p: InterviewPhase) -> InterviewPhase {
    match p {
        InterviewPhase::WarmUp => InterviewPhase::Technical,
        InterviewPhase::Technical => InterviewPhase::Behavioral,
        InterviewPhase::Behavioral => InterviewPhase::Business,
        InterviewPhase::Business => InterviewPhase::Questions,
        InterviewPhase::Questions => InterviewPhase::Completed,
        InterviewPhase::Completed => InterviewPhase::Completed,
    }
}

/// Position of a phase in the fixed order.
pub open spec fn phase_rank(p: InterviewPhase) -> nat {
    match p {
        InterviewPhase::WarmUp => 0,
        InterviewPhase::Technical => 1,
        InterviewPhase::Behavioral => 2,
        InterviewPhase::Business => 3,
        InterviewPhase::Questions => 4,
        InterviewPhase::Completed => 5,
    }
}

/// Static per-phase configuration.
#[derive(Debug, Clone, Copy)]
pub struct PhaseConfig {
    pub phase: InterviewPhase,
    pub min_questions: u32,
    pub max_questions: u32,
    pub primary_role: InterviewerRole,
}

/// The configuration of each phase but `Completed`, which has none.
pub open spec fn phase_config(p: InterviewPhase) -> Option<PhaseConfig> {
    match p {
        InterviewPhase::WarmUp => Some(
            PhaseConfig { phase: p, min_questions: 1, max_questions: 2, primary_role: InterviewerRole::HR },
        ),
        InterviewPhase::Technical => Some(
            PhaseConfig {
                phase: p,
                min_questions: 3,
                max_questions: 5,
                primary_role: InterviewerRole::Technical,
            },
        ),
        InterviewPhase::Behavioral => Some(
            PhaseConfig { phase: p, min_questions: 2, max_questions: 3, primary_role: InterviewerRole::HR },
        ),
        InterviewPhase::Business => Some(
            PhaseConfig {
                phase: p,
                min_questions: 2,
                max_questions: 3,
                primary_role: InterviewerRole::Business,
            },
        ),
        InterviewPhase::Questions => Some(
            PhaseConfig { phase: p, min_questions: 1, max_questions: 2, primary_role: InterviewerRole::HR },
        ),
        InterviewPhase::Completed => None,
    }
}

/// The abstract state of the machine: phase, questions asked in the phase,
/// questions asked in all.
pub struct MachineState {
    pub phase: InterviewPhase,
    pub phase_count: nat,
    pub total_count: nat,
}

pub open spec fn initial_state() -> MachineState {
    MachineState { phase: InterviewPhase::WarmUp, phase_count: 0, total_count: 0 }
}

/// Moves to the next phase and resets the per-phase count. The phase reported
/// is the new one; once complete, advancing is a no-op that reports nothing.
pub open spec fn advance_step(s: MachineState) -> (MachineState, Option<InterviewPhase>) {
    if s.phase == InterviewPhase::Completed {
        (s, None)
    } else {
        (
            MachineState { phase: next_phase(s.phase), phase_count: 0, ..s },
            Some(next_phase(s.phase)),
        )
    }
}

/// One question asked: both counts grow; reaching the phase's quota forces
/// the next phase.
pub open spec fn record_step(s: MachineState) -> (MachineState, Option<InterviewPhase>) {
    let t = MachineState { phase_count: s.phase_count + 1, total_count: s.total_count + 1, ..s };
    match phase_config(s.phase) {
        Some(c) => if t.phase_count >= c.max_questions {
            advance_step(t)
        } else {
            (t, None)
        },
        None => (t, None),
    }
}

/// An answer scored (in hundredths of a point): the phase ends early when its
/// minimum has been asked and the score is at least 8.0.
pub open spec fn quality_step(s: MachineState, score: int) -> (MachineState, Option<InterviewPhase>) {
    match phase_config(s.phase) {
        Some(c) => if s.phase_count >= c.min_questions && score >= 800 {
            advance_step(s)
        } else {
            (s, None)
        },
        None => (s, None),
    }
}

/// Starting a warm-up phase with no question asked, the first question keeps
/// the phase and the second forces the move to the technical phase.
pub proof fn lemma_warm_up_quota_forces_advance(s: MachineState)
    requires
        s.phase == InterviewPhase::WarmUp,
        s.phase_count == 0,
    ensures
        record_step(s).1 == None::<InterviewPhase>,
        record_step(s).0.phase == InterviewPhase::WarmUp,
        record_step(record_step(s).0).1 == Some(InterviewPhase::Technical),
        record_step(record_step(s).0).0.phase == InterviewPhase::Technical,
{
}

/// An answer scored below 8.0 never moves the phase, in any state; one scored
/// 8.0 or more always does once the phase's minimum has been asked, in every
/// phase that has a configuration (all but `Completed`).
pub proof fn lemma_quality_threshold(s: MachineState, score: int)
    ensures
        score < 800 ==> quality_step(s, score) == (s, None::<InterviewPhase>),
        score >= 800 && s.phase != InterviewPhase::Completed && s.phase_count >= phase_config(
            s.phase,
        )->0.min_questions ==> quality_step(s, score).1 == Some(next_phase(s.phase))
            && quality_step(s, score).0.phase == next_phase(s.phase)
            && quality_step(s, score).0.phase_count == 0,
{
}

/// Phases only move forward: each step keeps the phase or moves it to the next
/// one.
pub proof fn lemma_forward_only(s: MachineState, score: int)
    ensures
        record_step(s).0.phase == s.phase || record_step(s).0.phase == next_phase(s.phase),
        quality_step(s, score).0.phase == s.phase || quality_step(s, score).0.phase == next_phase(
            s.phase,
        ),
        s.phase != InterviewPhase::Completed ==> phase_rank(next_phase(s.phase)) == phase_rank(
            s.phase,
        ) + 1,
        next_phase(InterviewPhase::Completed) == InterviewPhase::Completed,
{
}

/// `Completed` is terminal: advancing is a no-op that reports nothing, and
/// neither a question nor a score moves the phase.
pub proof fn lemma_completed_is_terminal(s: MachineState, score: int)
    requires
        s.phase == InterviewPhase::Completed,
    ensures
        advance_step(s) == (s, None::<InterviewPhase>),
        record_step(s).0.phase == InterviewPhase::Completed,
        record_step(s).1 == None::<InterviewPhase>,
        quality_step(s, score) == (s, None::<InterviewPhase>),
{
}

/// Tracks the interview phase and the question counts that drive it forward.
pub struct InterviewStateMachine {
    current_phase: InterviewPhase,
    phase_question_count: u32,
    total_question_count: u32,
    phase_configs: Vec<PhaseConfig>,
}

/// A snapshot of the machine for display.
#[derive(Debug, Clone, Copy)]
pub struct InterviewProgress {
    pub current_phase: InterviewPhase,
    pub phase_question_count: u32,
    pub total_question_count: u32,
    pub is_completed: bool,
}

impl InterviewStateMachine {
    pub closed spec fn state(&self) -> MachineState {
        MachineState {
            phase: self.current_phase,
            phase_count: self.phase_question_count as nat,
            total_count: self.total_question_count as nat,
        }
    }

    /// The configuration table holds exactly one entry per phase but
    /// `Completed`, as `phase_config` gives it, and the phase count never
    /// exceeds the total.
    pub closed spec fn wf(&self) -> bool {
        &&& self.phase_configs@.len() == 5
        &&& forall|i: int|
            0 <= i < 5 ==> Some(#[trigger] self.phase_configs@[i]) == phase_config(
                self.phase_configs@[i].phase,
            )
        &&& forall|p: InterviewPhase|
            #![trigger phase_config(p)]
            phase_config(p) is Some ==> exists|i: int|
                0 <= i < 5 && self.phase_configs@[i].phase == p
        &&& self.phase_question_count <= self.total_question_count
    }

    /// A machine at the start of the warm-up phase.
    pub fn new() -> (r: Self)
        ensures
            r.wf(),
            r.state() == initial_state(),
    {
        let r = InterviewStateMachine {
            current_phase: InterviewPhase::WarmUp,
            phase_question_count: 0,
            total_question_count: 0,
            phase_configs: Self::default_configs(),
        };
        proof {
            assert(r.phase_configs@[0].phase == InterviewPhase::WarmUp);
            assert(r.phase_configs@[1].phase == InterviewPhase::Technical);
            assert(r.phase_configs@[2].phase == InterviewPhase::Behavioral);
            assert(r.phase_configs@[3].phase == InterviewPhase::Business);
            assert(r.phase_configs@[4].phase == InterviewPhase::Questions);
        }
        r
    }

    /// The configuration of every phase but `Completed`, in phase order.
    fn default_configs() -> (r: Vec<PhaseConfig>)
        ensures
            r@.len() == 5,
            r@[0] == phase_config(InterviewPhase::WarmUp)->0,
            r@[1] == phase_config(InterviewPhase::Technical)->0,
            r@[2] == phase_config(InterviewPhase::Behavioral)->0,
            r@[3] == phase_config(InterviewPhase::Business)->0,
            r@[4] == phase_config(InterviewPhase::Questions)->0,
    {
        vec![
            PhaseConfig {
                phase: InterviewPhase::WarmUp,
                min_questions: 1,
                max_questions: 2,
                primary_role: InterviewerRole::HR,
            },
            PhaseConfig {
                phase: InterviewPhase::Technical,
                min_questions: 3,
                max_questions: 5,
                primary_role: InterviewerRole::Technical,
            },
            PhaseConfig {
                phase: InterviewPhase::Behavioral,
                min_questions: 2,
                max_questions: 3,
                primary_role: InterviewerRole::HR,
            },
            PhaseConfig {
                phase: InterviewPhase::Business,
                min_questions: 2,
                max_questions: 3,
                primary_role: InterviewerRole::Business,
            },
            PhaseConfig {
                phase: InterviewPhase::Questions,
                min_questions: 1,
                max_questions: 2,
                primary_role: InterviewerRole::HR,
            },
        ]
    }

    /// The configuration of the current phase, looked up in the table.
    fn current_config(&self) -> (r: Option<PhaseConfig>)
        requires
            self.wf(),
        ensures
            r == phase_config(self.current_phase),
    {
        let mut i: usize = 0;
        while i < self.phase_configs.len()
            invariant
                self.wf(),
                0 <= i <= 5,
                forall|j: int| 0 <= j < i ==> self.phase_configs@[j].phase != self.current_phase,
            decreases 5 - i,
        {
            if self.phase_configs[i].phase == self.current_phase {
                return Some(self.phase_configs[i]);
            }
            i = i + 1;
        }
        proof {
            if phase_config(self.current_phase) is Some {
                let j = choose|j: int| 0 <= j < 5 && self.phase_configs@[j].phase == self.current_phase;
                assert(self.phase_configs@[j].phase != self.current_phase);
            }
        }
        None
    }

    pub fn current_phase(&self) -> (r: InterviewPhase)
        ensures
            r == self.state().phase,
    {
        self.current_phase
    }

    /// Records one question asked. Reaching the phase's maximum forces the
    /// next phase, which is returned.
    pub fn record_question(&mut self) -> (r: Option<InterviewPhase>)
        requires
            old(self).wf(),
            old(self).state().total_count < u32::MAX,
        ensures
            final(self).wf(),
            (final(self).state(), r) == record_step(old(self).state()),
    {
        self.phase_question_count = self.phase_question_count + 1;
        self.total_question_count = self.total_question_count + 1;
        match self.current_config() {
            Some(c) => {
                if self.phase_question_count >= c.max_questions {
                    self.advance_phase()
                } else {
                    None
                }
            },
            None => None,
        }
    }

    /// Ends the phase early when its minimum has been asked and the answer
    /// scored at least 8.0 (`score` in hundredths of a point).
    pub fn maybe_advance(&mut self, analysis: &crate::agents::AnalysisResult) -> (r: Option<
        InterviewPhase,
    >)
        requires
            old(self).wf(),
        ensures
            final(self).wf(),
            (final(self).state(), r) == quality_step(old(self).state(), analysis.score as int),
    {
        match self.current_config() {
            Some(c) => {
                if self.phase_question_count >= c.min_questions && analysis.score >= 800 {
                    self.advance_phase()
                } else {
                    None
                }
            },
            None => None,
        }
    }

    /// Resets the phase count and moves to the next phase; a no-op once
    /// complete.
    fn advance_phase(&mut self) -> (r: Option<InterviewPhase>)
        requires
            old(self).wf(),
        ensures
            final(self).wf(),
            (final(self).state(), r) == advance_step(old(self).state()),
    {
        if let InterviewPhase::Completed = self.current_phase {
            return None;
        }
        self.phase_question_count = 0;
        let next = match self.current_phase {
            InterviewPhase::WarmUp => InterviewPhase::Technical,
            InterviewPhase::Technical => InterviewPhase::Behavioral,
            InterviewPhase::Behavioral => InterviewPhase::Business,
            InterviewPhase::Business => InterviewPhase::Questions,
            InterviewPhase::Questions => InterviewPhase::Completed,
            InterviewPhase::Completed => {
                return None;
            },
        };
        self.current_phase = next;
        Some(next)
    }

    pub fn progress(&self) -> (r: InterviewProgress)
        ensures
            r.current_phase == self.state().phase,
            r.phase_question_count as nat == self.state().phase_count,
            r.total_question_count as nat == self.state().total_count,
            r.is_completed == (self.state().phase == InterviewPhase::Completed),
    {
        InterviewProgress {
            current_phase: self.current_phase,
            phase_question_count: self.phase_question_count,
            total_question_count: self.total_question_count,
            is_completed: self.current_phase == InterviewPhase::Completed,
        }
    }

    /// The persona that leads the current phase; none once complete.
    pub fn current_primary_role(&self) -> (r: Option<InterviewerRole>)
        requires
            self.wf(),
        ensures
            r == match phase_config(self.state().phase) {
                Some(c) => Some(c.primary_role),
                None => None,
            },
    {
        match self.current_config() {
            Some(c) => Some(c.primary_role),
            None => None,
        }
    }
}

impl Default for InterviewStateMachine {
    fn default() -> (r: Self)
        ensures
            r.wf(),
            r.state() == initial_state(),
    {
        Self::new()
    }
}

} // verus!
