use interview_spark::agents::{AnalysisResult, InterviewerRole};
use interview_spark::state_machine::{InterviewPhase, InterviewStateMachine};

fn scored(score: u32) -> AnalysisResult {
    AnalysisResult { score, strengths: vec![], improvements: vec![], summary: String::new() }
}

#[test]
fn warm_up_advances_on_second_question() {
    let mut sm = InterviewStateMachine::new();
    assert_eq!(sm.current_phase(), InterviewPhase::WarmUp);
    assert_eq!(sm.record_question(), None);
    assert_eq!(sm.current_phase(), InterviewPhase::WarmUp);
    assert_eq!(sm.record_question(), Some(InterviewPhase::Technical));
    assert_eq!(sm.current_phase(), InterviewPhase::Technical);
    let p = sm.progress();
    assert_eq!(p.phase_question_count, 0);
    assert_eq!(p.total_question_count, 2);
    assert!(!p.is_completed);
}

#[test]
fn score_threshold_decides_early_advance() {
    let mut sm = InterviewStateMachine::new();
    sm.record_question();
    assert_eq!(sm.maybe_advance(&scored(790)), None);
    assert_eq!(sm.current_phase(), InterviewPhase::WarmUp);
    assert_eq!(sm.maybe_advance(&scored(800)), Some(InterviewPhase::Technical));
    sm.record_question();
    assert_eq!(sm.maybe_advance(&scored(1000)), None);
}

#[test]
fn machine_reaches_completed_and_stays() {
    let mut sm = InterviewStateMachine::new();
    let mut seen = vec![];
    for _ in 0..20 {
        if let Some(p) = sm.record_question() {
            seen.push(p);
        }
    }
    assert_eq!(
        seen,
        vec![
            InterviewPhase::Technical,
            InterviewPhase::Behavioral,
            InterviewPhase::Business,
            InterviewPhase::Questions,
            InterviewPhase::Completed
        ]
    );
    assert!(sm.progress().is_completed);
    assert_eq!(sm.current_primary_role(), None);
    assert_eq!(sm.maybe_advance(&scored(1000)), None);
    assert_eq!(sm.progress().total_question_count, 20);
}

#[test]
fn primary_roles_follow_phases() {
    let mut sm = InterviewStateMachine::new();
    assert_eq!(sm.current_primary_role(), Some(InterviewerRole::HR));
    sm.record_question();
    sm.record_question();
    assert_eq!(sm.current_primary_role(), Some(InterviewerRole::Technical));
}
