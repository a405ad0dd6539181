use vstd::prelude::*;
use vstd::string::StringExecFns;

use rand::Rng;

use crate::agents::{
    is_fallback, role_name_text, AnalysisResult, ConversationTurn, InterviewContext,
    InterviewerRole,
};
use crate::state_machine::InterviewPhase;

verus! {

/// How the scheduler moves from one persona to the next.
#[derive(Debug, Clone, Copy, PartialEq, Eq, Structural)]
pub enum RotationStrategy {
    /// Round robin over the agent set.
    FixedOrder,
    /// The interview phase picks the persona (see `select_by_phase`).
    PhaseBased,
    /// A persona drawn at random.
    Random,
}

#[derive(Debug, Clone, Copy, PartialEq, Eq, Structural)]
pub enum SchedulerError {
    /// An answer came while no asked question was waiting for one.
    NoPendingTurn,
}

/// The persona that leads each phase.
pub open spec fn phase_role(p: InterviewPhase) -> InterviewerRole {
    match p {
        InterviewPhase::Technical => InterviewerRole::Technical,
        InterviewPhase::Business => InterviewerRole::Business,
        _ => InterviewerRole::HR,
    }
}

/// The latest turn still waits for its answer.
pub open spec fn has_pending_turn(h: Seq<ConversationTurn>) -> bool {
    h.len() > 0 && h.last().answer is None
}

/// `after` is `before` with `answer` and an assessment attached to its last
/// turn, everything else kept.
pub open spec fn answer_recorded(
    before: Seq<ConversationTurn>,
    after: Seq<ConversationTurn>,
    answer: String,
) -> bool {
    &&& before.len() > 0
    &&& after.len() == before.len()
    &&& after.drop_last() == before.drop_last()
    &&& after.last().role == before.last().role
    &&& after.last().role_name == before.last().role_name
    &&& after.last().question == before.last().question
    &&& after.last().answer == Some(answer)
    &&& after.last().analysis is Some
}

/// Relies on rand's `thread_rng` and `Rng::gen_range`: a value drawn from the
/// half-open range `0..n`, which must not be empty.
#[verifier::external_body]
fn random_index(n: usize) -> (r: usize)
    requires
        n > 0,
    ensures
        r < n,
{
    rand::thread_rng().gen_range(0..n)
}

/// The first position of `target` in `agents`, if it occurs.
fn position_of(agents: &Vec<InterviewerRole>, target: InterviewerRole) -> (r: Option<usize>)
    ensures
        r is Some ==> r->0 < agents@.len() && agents@[r->0 as int] == target && forall|j: int|
            0 <= j < r->0 ==> agents@[j] != target,
        r is None ==> !agents@.contains(target),
{
    let mut i: usize = 0;
    while i < agents.len()
        invariant
            0 <= i <= agents@.len(),
            forall|j: int| 0 <= j < i ==> agents@[j] != target,
        decreases agents@.len() - i,
    {
        if agents[i] == target {
            return Some(i);
        }
        i = i + 1;
    }
    None
}

/// Holds the agent set, picks the active persona and records the turns.
pub struct AgentScheduler {
    agents: Vec<InterviewerRole>,
    current_index: usize,
    rotation_strategy: RotationStrategy,
}

impl AgentScheduler {
    pub closed spec fn agents(&self) -> Seq<InterviewerRole> {
        self.agents@
    }

    pub closed spec fn index(&self) -> int {
        self.current_index as int
    }

    pub closed spec fn strategy(&self) -> RotationStrategy {
        self.rotation_strategy
    }

    /// The agent set is not empty and the active index lies in it.
    pub open spec fn wf(&self) -> bool {
        0 <= self.index() < self.agents().len()
    }

    /// The persona that the scheduler currently asks.
    pub open spec fn active_role(&self) -> InterviewerRole {
        self.agents()[self.index()]
    }

    /// A round-robin scheduler whose first persona is the first agent.
    pub fn new(agents: Vec<InterviewerRole>) -> (r: Self)
        requires
            agents@.len() > 0,
        ensures
            r.wf(),
            r.agents() == agents@,
            r.index() == 0,
            r.strategy() == RotationStrategy::FixedOrder,
    {
        AgentScheduler { agents, current_index: 0, rotation_strategy: RotationStrategy::FixedOrder }
    }

    pub fn with_strategy(self, strategy: RotationStrategy) -> (r: Self)
        ensures
            r.agents() == self.agents(),
            r.index() == self.index(),
            r.strategy() == strategy,
    {
        AgentScheduler { rotation_strategy: strategy, ..self }
    }

    pub fn rotation_strategy(&self) -> (r: RotationStrategy)
        ensures
            r == self.strategy(),
    {
        self.rotation_strategy
    }

    pub fn current_agent(&self) -> (r: InterviewerRole)
        requires
            self.wf(),
        ensures
            r == self.active_role(),
    {
        self.agents[self.current_index]
    }

    /// Moves to the next persona: the following one in round robin, one drawn
    /// at random, or the same one when the phase decides.
    pub fn next_agent(&mut self) -> (r: InterviewerRole)
        requires
            old(self).wf(),
        ensures
            final(self).wf(),
            final(self).agents() == old(self).agents(),
            final(self).strategy() == old(self).strategy(),
            r == final(self).active_role(),
            old(self).strategy() == RotationStrategy::FixedOrder ==> final(self).index() == (
            old(self).index() + 1) % (old(self).agents().len() as int),
            old(self).strategy() == RotationStrategy::PhaseBased ==> final(self).index()
                == old(self).index(),
    {
        match self.rotation_strategy {
            RotationStrategy::FixedOrder => {
                let n = self.agents.len();
                self.current_index = (self.current_index + 1) % n;
            },
            RotationStrategy::Random => {
                self.current_index = random_index(self.agents.len());
            },
            RotationStrategy::PhaseBased => {},
        }
        self.agents[self.current_index]
    }

    /// Makes the persona that leads `phase` active: the first agent with that
    /// role, or the first agent when none has it.
    pub fn select_by_phase(&mut self, phase: InterviewPhase) -> (r: InterviewerRole)
        requires
            old(self).wf(),
        ensures
            final(self).wf(),
            final(self).agents() == old(self).agents(),
            final(self).strategy() == old(self).strategy(),
            r == final(self).active_role(),
            old(self).agents().contains(phase_role(phase)) ==> r == phase_role(phase) && forall|
                j: int,
            |
                0 <= j < final(self).index() ==> old(self).agents()[j] != phase_role(phase),
            !old(self).agents().contains(phase_role(phase)) ==> final(self).index() == 0,
    {
        let target = match phase {
            InterviewPhase::Technical => InterviewerRole::Technical,
            InterviewPhase::Business => InterviewerRole::Business,
            _ => InterviewerRole::HR,
        };
        match position_of(&self.agents, target) {
            Some(i) => {
                self.current_index = i;
            },
            None => {
                self.current_index = 0;
            },
        }
        self.agents[self.current_index]
    }

    /// Records a question asked by the active persona as a new turn that
    /// waits for its answer. This is where turns are created.
    pub fn execute_turn(&self, context: &mut InterviewContext, question: String) -> (r:
        ConversationTurn)
        requires
            self.wf(),
        ensures
            final(context).conversation_history@ == old(context).conversation_history@.push(
                final(context).conversation_history@.last(),
            ),
            final(context).conversation_history@.last().role == self.active_role(),
            final(context).conversation_history@.last().role_name@ == role_name_text(
                self.active_role(),
            ),
            final(context).conversation_history@.last().question == question,
            final(context).conversation_history@.last().answer is None,
            final(context).conversation_history@.last().analysis is None,
            r.role == self.active_role(),
            r.role_name@ == role_name_text(self.active_role()),
            r.question == question,
            r.answer is None,
            r.analysis is None,
            final(context).resume == old(context).resume,
            final(context).job_description == old(context).job_description,
            final(context).current_phase == old(context).current_phase,
    {
        let role = self.agents[self.current_index];
        let turn = ConversationTurn {
            role,
            role_name: String::from_str(role.role_name()),
            question: question.clone(),
            answer: None,
            analysis: None,
        };
        context.conversation_history.push(turn);
        ConversationTurn {
            role,
            role_name: String::from_str(role.role_name()),
            question,
            answer: None,
            analysis: None,
        }
    }

    /// Attaches `answer` to the turn waiting for it, then the active
    /// persona's assessment: the one read from the service's reply, or the
    /// persona's fallback when the reply could not be read. This is the only
    /// place where a turn gets its answer. Fails when no turn is waiting.
    pub fn process_answer(
        &self,
        context: &mut InterviewContext,
        answer: String,
        reply: Option<AnalysisResult>,
    ) -> (r: Result<AnalysisResult, SchedulerError>)
        requires
            self.wf(),
        ensures
            !has_pending_turn(old(context).conversation_history@) ==> r == Err::<
                AnalysisResult,
                SchedulerError,
            >(SchedulerError::NoPendingTurn) && final(context).conversation_history@ == old(
                context,
            ).conversation_history@,
            has_pending_turn(old(context).conversation_history@) ==> {
                let h = final(context).conversation_history@;
                &&& answer_recorded(old(context).conversation_history@, h, answer)
                &&& reply is Some ==> h.last().analysis == reply
                &&& reply is None ==> is_fallback(self.active_role(), h.last().analysis->0)
                &&& r is Ok && r->Ok_0.same_as(&h.last().analysis->0)
            },
            final(context).resume == old(context).resume,
            final(context).job_description == old(context).job_description,
            final(context).current_phase == old(context).current_phase,
    {
        let n = context.conversation_history.len();
        if n == 0 {
            return Err(SchedulerError::NoPendingTurn);
        }
        if context.conversation_history[n - 1].answer.is_some() {
            return Err(SchedulerError::NoPendingTurn);
        }
        let ghost before = context.conversation_history@;
        let last = context.conversation_history.pop().unwrap();
        let analysis = self.agents[self.current_index].analyze_reply(reply);
        let result = analysis.duplicate();
        let turn = ConversationTurn {
            role: last.role,
            role_name: last.role_name,
            question: last.question,
            answer: Some(answer),
            analysis: Some(analysis),
        };
        context.conversation_history.push(turn);
        proof {
            assert(context.conversation_history@.drop_last() =~= before.drop_last());
        }
        Ok(result)
    }

    /// Whether the active persona asks a follow-up question on this answer.
    pub fn should_follow_up(&self, answer: &str, analysis: &AnalysisResult) -> (r: bool)
        requires
            self.wf(),
        ensures
            r == ((answer.len() as nat) < crate::agents::follow_up_min_len(self.active_role())
                || analysis.score < crate::agents::follow_up_min_score(self.active_role())),
    {
        self.agents[self.current_index].should_follow_up(answer, analysis)
    }
}

/// Once an answer has been recorded, no turn waits any more: a second answer
/// with no question asked in between is refused with `NoPendingTurn`.
pub proof fn lemma_answer_settles_pending_turn(
    before: Seq<ConversationTurn>,
    after: Seq<ConversationTurn>,
    answer: String,
)
    requires
        answer_recorded(before, after, answer),
    ensures
        !has_pending_turn(after),
{
}

/// With phase-based selection over an agent set that holds an HR and a
/// technical persona, an interview that starts in warm-up has its first two
/// questions asked by HR; the second question moves the interview to the
/// technical phase, whose questions the technical persona asks for as long
/// as the phase lasts.
pub proof fn lemma_phase_based_interview_start(agents: Seq<InterviewerRole>)
    requires
        agents.contains(InterviewerRole::HR),
        agents.contains(InterviewerRole::Technical),
    ensures
        ({
            let s0 = crate::state_machine::initial_state();
            let s1 = crate::state_machine::record_step(s0).0;
            let s2 = crate::state_machine::record_step(s1).0;
            &&& phase_role(s0.phase) == InterviewerRole::HR
            &&& phase_role(s1.phase) == InterviewerRole::HR
            &&& s2.phase == InterviewPhase::Technical
            &&& phase_role(s2.phase) == InterviewerRole::Technical
        }),
        forall|s: crate::state_machine::MachineState|
            s.phase == InterviewPhase::Technical ==> phase_role(s.phase) == InterviewerRole::Technical
                && agents.contains(#[trigger] phase_role(s.phase)),
{
}

} // verus!
