use interview_spark::agents::{
    analysis_request, build_messages, comparison_or_fallback, comparison_request, AnalysisResult,
    InterviewContext, InterviewerRole, MatchStatus,
};
use interview_spark::state_machine::InterviewPhase;

fn analysis(score: u32) -> AnalysisResult {
    AnalysisResult { score, strengths: vec![], improvements: vec![], summary: String::new() }
}

#[test]
fn unreadable_reply_gives_role_fallback() {
    let t = InterviewerRole::Technical.analyze_reply(None);
    assert_eq!(t.score, 700);
    assert_eq!(t.strengths, vec!["回答完整".to_string()]);
    assert_eq!(t.improvements, vec!["可以更详细展开".to_string()]);
    let h = InterviewerRole::HR.analyze_reply(None);
    assert_eq!(h.score, 750);
    assert_eq!(h.summary, "候选人具备基本的软技能。");
    let b = InterviewerRole::Business.analyze_reply(None);
    assert_eq!(b.score, 750);
    assert_eq!(b.strengths, vec!["思路清晰".to_string()]);
    let kept = InterviewerRole::HR.analyze_reply(Some(analysis(420)));
    assert_eq!(kept.score, 420);
}

#[test]
fn follow_up_thresholds() {
    let long_tech = "x".repeat(100);
    assert!(!InterviewerRole::Technical.should_follow_up(&long_tech, &analysis(700)));
    assert!(InterviewerRole::Technical.should_follow_up(&"x".repeat(99), &analysis(900)));
    assert!(InterviewerRole::Technical.should_follow_up(&long_tech, &analysis(699)));
    assert!(InterviewerRole::HR.should_follow_up(&"x".repeat(149), &analysis(900)));
    assert!(!InterviewerRole::HR.should_follow_up(&"x".repeat(150), &analysis(750)));
    assert!(InterviewerRole::Business.should_follow_up(&"x".repeat(119), &analysis(900)));
    assert!(!InterviewerRole::Business.should_follow_up(&"x".repeat(120), &analysis(750)));
    assert!(InterviewerRole::Business.should_follow_up(&"x".repeat(120), &analysis(749)));
}

#[test]
fn role_names_and_avatars() {
    assert_eq!(InterviewerRole::Technical.role_name(), "技术面试官");
    assert_eq!(InterviewerRole::HR.role_name(), "HR面试官");
    assert_eq!(InterviewerRole::Business.role_name(), "业务面试官");
    assert_eq!(InterviewerRole::Business.avatar(), "business");
}

#[test]
fn prompts_embed_context() {
    let ctx = InterviewContext {
        resume: "RESUME".to_string(),
        job_description: "JOB".to_string(),
        conversation_history: vec![],
        current_phase: InterviewPhase::Technical,
    };
    let q = InterviewerRole::Technical.question_request(&ctx, &vec!["q1".to_string()]);
    assert!(q.starts_with("基于以下JD和候选人简历，生成一个技术面试问题。\n\nJD: JOB\n\n简历: RESUME\n\n参考题库: [\"q1\"]"));
    let h = InterviewerRole::HR.question_request(&ctx, &vec![]);
    assert!(h.contains("行为面试问题") && h.contains("JOB") && !h.contains("参考题库"));
    assert_eq!(
        analysis_request("Q", "A"),
        "问题：Q\n\n候选人回答：A\n\n请分析回答质量并输出JSON格式结果。"
    );
}

#[test]
fn messages_put_system_first() {
    let m = build_messages(Some("sys"), "hi");
    assert_eq!(m.len(), 2);
    assert_eq!(m[0].role, "system");
    assert_eq!(m[1].content, "hi");
    let n = build_messages(None, "hi");
    assert_eq!(n.len(), 1);
    assert_eq!(n[0].role, "user");
}

#[test]
fn comparison_fallback() {
    let c = comparison_or_fallback(None);
    assert_eq!(c.overall_match, 70);
    assert_eq!(c.comparisons.len(), 1);
    assert_eq!(c.comparisons[0].match_status, MatchStatus::Partial);
    assert_eq!(c.missing_points, vec!["部分细节未提及".to_string()]);
    assert!(comparison_request("q", "u", "b").contains("最佳答案：b"));
}

#[test]
fn analysis_copy_is_equal() {
    let a = AnalysisResult { score: 5, strengths: vec!["a".into()], improvements: vec!["b".into()], summary: "c".into() };
    let b = a.duplicate();
    assert_eq!(b.score, 5);
    assert_eq!(b.strengths, a.strengths);
    assert_eq!(b.summary, "c");
}

