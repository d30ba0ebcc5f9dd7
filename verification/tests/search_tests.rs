use vecfacade::facade::{Embedder, StoreError, VectorStore};

fn pack(vals: &[f32]) -> Vec<u32> {
    let mut out: Vec<u32> = Vec::new();
    for v in vals {
        out.push(v.to_bits());
    }
    out
}

struct UnitX;

impl Embedder for UnitX {
    fn embed(&self, _content: String) -> Result<Vec<u32>, String> {
        Ok(pack(&[1.0, 0.0, 0.0]))
    }
}

#[test]
fn search_two_records_with_k_three_returns_both_ranked() {
    let mut st = VectorStore::new(3).unwrap();
    st.set_vector(
        "near".to_string(),
        pack(&[1.0, 0.0, 0.0]),
        "tn".to_string(),
        "un".to_string(),
        None,
    )
    .unwrap();
    st.set_vector(
        "far".to_string(),
        pack(&[0.0, 1.0, 0.0]),
        "tf".to_string(),
        "uf".to_string(),
        None,
    )
    .unwrap();
    let hits = st.search(pack(&[1.0, 0.0, 0.0]), Some(3)).unwrap();
    assert_eq!(hits.len(), 2);
    assert_eq!(hits[0].id, "near");
    assert_eq!(hits[1].id, "far");
    // The engine's raw score is its cosine distance: the most similar
    // record comes first, so the raw scores are nondecreasing.
    let s0 = f32::from_bits(hits[0].score_bits);
    let s1 = f32::from_bits(hits[1].score_bits);
    assert!(s0 <= s1);
}

#[test]
fn search_k_bounds_the_result_count() {
    let mut st = VectorStore::new(2).unwrap();
    st.set_vector("a".to_string(), pack(&[1.0, 0.0]), "t".to_string(), "u".to_string(), None).unwrap();
    st.set_vector("b".to_string(), pack(&[0.9, 0.1]), "t".to_string(), "u".to_string(), None).unwrap();
    st.set_vector("c".to_string(), pack(&[0.0, 1.0]), "t".to_string(), "u".to_string(), None).unwrap();
    let hits = st.search(pack(&[1.0, 0.0]), Some(2)).unwrap();
    assert_eq!(hits.len(), 2);
}

#[test]
fn search_empty_store_returns_nothing() {
    let st = VectorStore::new(2).unwrap();
    let hits = st.search(pack(&[1.0, 0.0]), None).unwrap();
    assert!(hits.is_empty());
}

#[test]
fn search_wrong_length_query_is_rejected() {
    let mut st = VectorStore::new(3).unwrap();
    st.set_vector(
        "a".to_string(),
        pack(&[1.0, 0.0, 0.0]),
        "t".to_string(),
        "u".to_string(),
        None,
    )
    .unwrap();
    let r = st.search(pack(&[1.0, 0.0]), None);
    match r {
        Err(StoreError::DimensionMismatch { expected, actual }) => {
            assert_eq!(expected, 3);
            assert_eq!(actual, 2);
        }
        _ => panic!("expected a dimension mismatch"),
    }
    assert_eq!(st.len(), 1);
}

#[test]
fn search_oversized_query_component_is_rejected() {
    let st = VectorStore::new(1).unwrap();
    let r = st.search(vec![f32::MAX.to_bits()], None);
    assert!(matches!(r, Err(StoreError::StoreRead(_))));
}

#[test]
fn search_top_hit_carries_fields_and_no_content() {
    let mut st = VectorStore::new(3).unwrap();
    st.set(
        "doc1".to_string(),
        "hello".to_string(),
        "T1".to_string(),
        "u1".to_string(),
        String::new(),
        &UnitX,
    )
    .unwrap();
    let hits = st.search(pack(&[1.0, 0.0, 0.0]), Some(1)).unwrap();
    assert_eq!(hits.len(), 1);
    assert_eq!(hits[0].id, "doc1");
    assert_eq!(hits[0].fields.title.as_deref(), Some("T1"));
    assert_eq!(hits[0].fields.url.as_deref(), Some("u1"));
    // The query equals the stored vector, so the engine's top cosine
    // distance is (numerically) zero.
    let s0 = f32::from_bits(hits[0].score_bits);
    assert!(s0.abs() < 1e-3);
    // The raw content was discarded at vectorization: no field holds it.
    assert_ne!(hits[0].fields.title.as_deref(), Some("hello"));
    assert_ne!(hits[0].fields.url.as_deref(), Some("hello"));
    assert_ne!(hits[0].fields.summary.as_deref(), Some("hello"));
}
