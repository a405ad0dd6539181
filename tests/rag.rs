use interview_spark::error::RagError;
use interview_spark::rag::{
    check_model_files, contents_or_empty, is_unavailable, Category, InitAction, InitGate,
    InitOutcome, InitState, Retriever,
};
use interview_spark::vector_store::SearchResult;

fn hit(content: &str) -> SearchResult {
    SearchResult { id: 1, content: content.to_string(), content_type: "question".to_string(), metadata: None, similarity: 0 }
}

#[test]
fn init_runs_once_and_waiters_share_result() {
    let mut g = InitGate::new();
    assert_eq!(g.begin(), InitAction::Start);
    assert_eq!(g.begin(), InitAction::Await);
    assert_eq!(g.begin(), InitAction::Await);
    assert_eq!(g.waited_result(), None);
    assert_eq!(g.finish(InitOutcome::Succeeded), Ok(()));
    assert_eq!(g.waited_result(), Some(Ok(())));
    assert_eq!(g.begin(), InitAction::Proceed);
    assert!(g.is_ready());
}

#[test]
fn init_failure_is_sticky() {
    let mut g = InitGate::new();
    assert_eq!(g.begin(), InitAction::Start);
    assert_eq!(g.finish(InitOutcome::TimedOut), Err(RagError::InitializationTimeout));
    assert_eq!(g.waited_result(), Some(Err(RagError::InitializationTimeout)));
    assert_eq!(g.begin(), InitAction::Fail(RagError::PreviouslyFailed));
    assert_eq!(g.begin(), InitAction::Fail(RagError::PreviouslyFailed));
    assert_eq!(g.state(), InitState::Failed(RagError::InitializationTimeout));
    g.reset_failed();
    assert_eq!(g.begin(), InitAction::Start);
    assert_eq!(g.finish(InitOutcome::Failed(RagError::ModelLoadError)), Err(RagError::ModelLoadError));
    assert!(is_unavailable(RagError::PreviouslyFailed));
    assert!(!is_unavailable(RagError::IndexNotBuilt));
}

#[test]
fn context_numbers_entries_and_respects_budget() {
    let results = vec![hit("alpha"), hit("beta"), hit("gamma")];
    assert_eq!(Retriever::build_context(&results, 1000), "1. alpha\n2. beta\n3. gamma\n");
    assert_eq!(Retriever::build_context(&results, 17), "1. alpha\n2. beta\n");
    assert_eq!(Retriever::build_context(&results, 8), "");
    assert_eq!(Retriever::build_context(&[hit("题")], 7), "1. 题\n");
    assert_eq!(Retriever::build_context(&[hit("题")], 6), "");
    let _r = Retriever::new_shared();
}

#[test]
fn retrieval_failure_degrades_to_no_context() {
    assert!(contents_or_empty(Err(RagError::PreviouslyFailed)).is_empty());
    assert_eq!(contents_or_empty(Ok(vec![hit("a"), hit("b")])), vec!["a".to_string(), "b".to_string()]);
}

#[test]
fn model_files_required() {
    assert_eq!(check_model_files(true, true), Ok(()));
    assert_eq!(check_model_files(false, true), Err(RagError::ModelLoadError));
    assert_eq!(check_model_files(true, false), Err(RagError::ModelLoadError));
    assert_eq!(Category::JobDescription.content_type(), "jd");
    assert!(!RagError::IndexNotBuilt.message().is_empty());
}
