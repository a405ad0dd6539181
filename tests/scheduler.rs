use interview_spark::agents::{AnalysisResult, InterviewContext, InterviewerRole};
use interview_spark::scheduler::{AgentScheduler, RotationStrategy, SchedulerError};
use interview_spark::state_machine::{InterviewPhase, InterviewStateMachine};

fn context() -> InterviewContext {
    InterviewContext {
        resume: "r".to_string(),
        job_description: "jd".to_string(),
        conversation_history: vec![],
        current_phase: InterviewPhase::WarmUp,
    }
}

fn agents() -> Vec<InterviewerRole> {
    vec![InterviewerRole::Technical, InterviewerRole::HR, InterviewerRole::Business]
}

#[test]
fn second_answer_without_question_fails() {
    let s = AgentScheduler::new(agents());
    let mut ctx = context();
    s.execute_turn(&mut ctx, "Q1".to_string());
    let first = s.process_answer(&mut ctx, "A1".to_string(), None);
    assert!(first.is_ok());
    let second = s.process_answer(&mut ctx, "A2".to_string(), None);
    assert!(matches!(second, Err(SchedulerError::NoPendingTurn)));
    assert_eq!(ctx.conversation_history.len(), 1);
    assert_eq!(ctx.conversation_history[0].answer.as_deref(), Some("A1"));
}

#[test]
fn answer_with_no_turn_fails() {
    let s = AgentScheduler::new(agents());
    let mut ctx = context();
    assert!(matches!(s.process_answer(&mut ctx, "A".to_string(), None), Err(SchedulerError::NoPendingTurn)));
}

#[test]
fn process_answer_attaches_reply_or_fallback() {
    let s = AgentScheduler::new(agents());
    let mut ctx = context();
    let turn = s.execute_turn(&mut ctx, "Q".to_string());
    assert_eq!(turn.role, InterviewerRole::Technical);
    assert_eq!(turn.role_name, "技术面试官");
    assert!(turn.answer.is_none());
    let reply = AnalysisResult { score: 910, strengths: vec!["s".to_string()], improvements: vec![], summary: "ok".to_string() };
    let a = s.process_answer(&mut ctx, "A".to_string(), Some(reply)).unwrap();
    assert_eq!(a.score, 910);
    assert_eq!(ctx.conversation_history[0].analysis.as_ref().unwrap().summary, "ok");
    s.execute_turn(&mut ctx, "Q2".to_string());
    let b = s.process_answer(&mut ctx, "A2".to_string(), None).unwrap();
    assert_eq!(b.score, 700);
    assert_eq!(b.summary, "回答基本到位，有改进空间。");
}

#[test]
fn fixed_order_rotates() {
    let mut s = AgentScheduler::new(agents());
    assert_eq!(s.current_agent(), InterviewerRole::Technical);
    assert_eq!(s.next_agent(), InterviewerRole::HR);
    assert_eq!(s.next_agent(), InterviewerRole::Business);
    assert_eq!(s.next_agent(), InterviewerRole::Technical);
}

#[test]
fn random_rotation_stays_in_set() {
    let mut s = AgentScheduler::new(agents()).with_strategy(RotationStrategy::Random);
    for _ in 0..20 {
        let r = s.next_agent();
        assert!(agents().contains(&r));
    }
}

#[test]
fn phase_based_keeps_agent_and_falls_back_to_first() {
    let mut s = AgentScheduler::new(vec![InterviewerRole::Technical]).with_strategy(RotationStrategy::PhaseBased);
    assert_eq!(s.next_agent(), InterviewerRole::Technical);
    assert_eq!(s.select_by_phase(InterviewPhase::WarmUp), InterviewerRole::Technical);
}

#[test]
fn phase_based_interview_start() {
    let mut s = AgentScheduler::new(agents()).with_strategy(RotationStrategy::PhaseBased);
    let mut sm = InterviewStateMachine::new();
    let mut ctx = context();
    let mut served = vec![];
    for i in 0..5 {
        let role = s.select_by_phase(sm.current_phase());
        served.push(role);
        s.execute_turn(&mut ctx, format!("Q{}", i));
        sm.record_question();
        s.process_answer(&mut ctx, "answer".to_string(), None).unwrap();
    }
    assert_eq!(
        served,
        vec![
            InterviewerRole::HR,
            InterviewerRole::HR,
            InterviewerRole::Technical,
            InterviewerRole::Technical,
            InterviewerRole::Technical
        ]
    );
    assert_eq!(sm.current_phase(), InterviewPhase::Technical);
}
