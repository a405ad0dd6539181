use interview_spark::generation::{
    best_answer_request, extract_json_array, persona_prompt, question_list_request,
    question_list_system, PersonaConfig, DEFAULT_PERSONA_PROMPT,
};
use interview_spark::keyed::StrMap;

fn persona(prompt: &str) -> PersonaConfig {
    PersonaConfig { name: "n".to_string(), description: "d".to_string(), prompt: prompt.to_string() }
}

#[test]
fn json_reply_is_read_whole() {
    assert_eq!(extract_json_array("[\"a\", \"b\"]"), Some(vec!["a".to_string(), "b".to_string()]));
    assert_eq!(extract_json_array("[]"), Some(vec![]));
}

#[test]
fn json_inside_text_is_found() {
    let reply = "Here you go:\n[\"问题一\", \"问题二\"]\nGood luck";
    assert_eq!(extract_json_array(reply), Some(vec!["问题一".to_string(), "问题二".to_string()]));
}

#[test]
fn lines_are_read_when_no_json() {
    let reply = "1. What is ownership?\n- \"Explain lifetimes\"\nshort\n[\n2. Why use traits here?";
    assert_eq!(
        extract_json_array(reply),
        Some(vec![
            "What is ownership?".to_string(),
            "Explain lifetimes".to_string(),
            "Why use traits here?".to_string()
        ])
    );
    assert_eq!(extract_json_array("tiny\n\n"), None);
    assert_eq!(extract_json_array(""), None);
}

#[test]
fn persona_lookup_falls_back() {
    let mut table = StrMap::new();
    assert_eq!(persona_prompt(&table, &"friendly".to_string()), DEFAULT_PERSONA_PROMPT);
    table.insert("balanced".to_string(), persona("B"));
    assert_eq!(persona_prompt(&table, &"friendly".to_string()), "B");
    table.insert("friendly".to_string(), persona("F"));
    assert_eq!(persona_prompt(&table, &"friendly".to_string()), "F");
}

#[test]
fn generation_requests() {
    assert_eq!(question_list_system("P"), "P 你必须只返回有效的JSON数组，不要任何额外的文字或解释。");
    let q = question_list_request("R", "J", 10, None);
    assert!(q.starts_with("根据以下简历和岗位描述，生成 10 个相关的面试问题。所有问题必须使用中文。\n\n简历：\nR\n\n岗位描述：\nJ"));
    let with_ctx = question_list_request("R", "J", 3, Some("C"));
    assert!(with_ctx.contains("知识库参考问题：\nC"));
    assert!(best_answer_request("Q", "J").starts_with("面试问题：Q\n\n岗位描述：J"));
}
