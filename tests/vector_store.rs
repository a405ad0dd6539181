use interview_spark::error::RagError;
use interview_spark::vector_store::{
    candidate_count, layer_count, plan_index, rank_results, SearchResult, VectorStore,
};

fn hit(id: i64, ty: &str, similarity: i32) -> SearchResult {
    SearchResult {
        id,
        content: format!("c{}", id),
        content_type: ty.to_string(),
        metadata: None,
        similarity,
    }
}

#[test]
fn search_before_build_fails_whatever_was_inserted() {
    let mut store = VectorStore::new();
    for _ in 0..10 {
        store.note_insert();
    }
    assert!(matches!(store.search(vec![hit(1, "question", 900_000)], 5, None), Err(RagError::IndexNotBuilt)));
    assert!(matches!(store.search_plan(5), Err(RagError::IndexNotBuilt)));
    assert!(!store.is_built());
    assert!(store.needs_rebuild());
}

#[test]
fn search_after_build_ranks_filters_and_truncates() {
    let mut store = VectorStore::new();
    store.note_insert();
    let plan = plan_index(&vec![384, 384, 384]).unwrap();
    store.publish_index(plan);
    assert!(store.is_built());
    assert!(!store.needs_rebuild());
    assert_eq!(store.generation(), 1);
    let candidates = vec![
        hit(1, "question", 500_000),
        hit(2, "answer", 990_000),
        hit(3, "question", 800_000),
        hit(4, "question", 800_000),
        hit(5, "question", 100_000),
    ];
    let ty = "question".to_string();
    let r = store.search(candidates, 2, Some(&ty)).unwrap();
    let ids: Vec<i64> = r.iter().map(|h| h.id).collect();
    assert_eq!(ids, vec![3, 4]);
}

#[test]
fn rank_without_filter_keeps_all_sorted() {
    let r = rank_results(vec![hit(1, "a", -5), hit(2, "b", 7), hit(3, "a", 7)], 10, None);
    let ids: Vec<i64> = r.iter().map(|h| h.id).collect();
    assert_eq!(ids, vec![2, 3, 1]);
    assert!(rank_results(vec![hit(1, "a", 1)], 0, None).is_empty());
    assert!(rank_results(vec![], 3, None).is_empty());
}

#[test]
fn empty_store_build_allows_search() {
    let mut store = VectorStore::new();
    let plan = plan_index(&vec![]).unwrap();
    assert_eq!(plan.vector_count, 0);
    assert_eq!(plan.dimension, 0);
    store.publish_index(plan);
    assert!(store.search(vec![], 3, None).unwrap().is_empty());
}

#[test]
fn delete_leaves_index_and_asks_rebuild() {
    let mut store = VectorStore::new();
    store.publish_index(plan_index(&vec![3]).unwrap());
    let _pending = store.note_delete();
    assert!(store.is_built());
    assert!(store.needs_rebuild());
}

#[test]
fn candidate_counts() {
    assert_eq!(candidate_count(0), 50);
    assert_eq!(candidate_count(3), 50);
    assert_eq!(candidate_count(25), 50);
    assert_eq!(candidate_count(30), 60);
    assert_eq!(candidate_count(usize::MAX), usize::MAX);
}

#[test]
fn layers_follow_natural_log() {
    assert_eq!(layer_count(0), 0);
    assert_eq!(layer_count(2), 0);
    assert_eq!(layer_count(3), 1);
    assert_eq!(layer_count(20), 2);
    assert_eq!(layer_count(21), 3);
    assert_eq!(layer_count(1000), 6);
    assert_eq!(layer_count(100_000_000), 16);
    for n in [1usize, 5, 50, 500, 5000, 50_000, 500_000, 5_000_000] {
        assert_eq!(layer_count(n), ((n as f32).ln() as usize).min(16));
    }
}

#[test]
fn plan_rejects_mixed_dimensions() {
    assert!(matches!(plan_index(&vec![3, 4]), Err(RagError::DimensionMismatch)));
    let p = plan_index(&vec![8; 30]).unwrap();
    assert_eq!(p.layers, 3);
    assert_eq!(p.max_connections, 48);
    assert_eq!(p.ef_construction, 200);
}

#[test]
fn tied_hits_keep_candidate_order_through_truncation() {
    let r = rank_results(
        vec![hit(7, "q", 5), hit(8, "a", 9), hit(9, "q", 5), hit(10, "q", 5), hit(11, "q", 6)],
        3,
        Some(&"q".to_string()),
    );
    let ids: Vec<i64> = r.iter().map(|h| h.id).collect();
    assert_eq!(ids, vec![11, 7, 9]);
}
