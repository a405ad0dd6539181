use interview_spark::bootstrap::{
    answering_message, failure_label, generating_message, get_jd_templates, processing_message,
    BootstrapTally, FailureStage, KnowledgeStatus, QUESTIONS_PER_CATEGORY,
};

#[test]
fn templates_and_totals() {
    let t = get_jd_templates();
    assert_eq!(t.len(), 6);
    assert_eq!(t[0].category, "frontend");
    assert_eq!(t[5].category, "devops");
    let tally = BootstrapTally::new(t.len());
    assert_eq!(tally.total_items, 6 * QUESTIONS_PER_CATEGORY * 2);
}

#[test]
fn failure_labels() {
    assert_eq!(failure_label("qa", 3, FailureStage::Questions), "qa:questions");
    assert_eq!(failure_label("qa", 3, FailureStage::QuestionStore), "qa:q3");
    assert_eq!(failure_label("qa", 3, FailureStage::QuestionEmbed), "qa:q3_embed");
    assert_eq!(failure_label("pm", 12, FailureStage::AnswerGenerate), "pm:a12_gen");
}

#[test]
fn bootstrap_result_messages() {
    let mut ok = BootstrapTally::new(1);
    ok.question_stored();
    ok.answer_stored();
    ok.step();
    let r = ok.finish();
    assert!(r.success);
    assert_eq!(r.message, "成功初始化知识库：1道题目，1条答案");

    let mut bad = BootstrapTally::new(1);
    bad.question_stored();
    bad.failed("qa", 0, FailureStage::AnswerEmbed);
    bad.index_failed();
    let r = bad.finish();
    assert!(!r.success);
    assert_eq!(r.failed_items, vec!["qa:a0_embed".to_string(), "index_build".to_string()]);
    assert_eq!(r.message, "知识库初始化完成，1道题目，0条答案，2项失败");
}

#[test]
fn progress_messages() {
    assert_eq!(generating_message("产品经理"), "正在为产品经理生成面试题...");
    assert_eq!(processing_message("产品经理", 2), "正在处理产品经理第2题...");
    assert_eq!(answering_message("产品经理", 10), "正在生成产品经理第10题答案...");
    let s = KnowledgeStatus::from_counts(0, 0, 0);
    assert!(s.is_empty);
    assert!(!KnowledgeStatus::from_counts(3, 2, 1).is_empty);
}
