use vecfacade::facade::{Embedder, StoreError, VectorStore};

fn bits_of(vals: &[f32]) -> Vec<u32> {
    let mut out: Vec<u32> = Vec::new();
    for v in vals {
        out.push(v.to_bits());
    }
    out
}

struct FixedEmbedder {
    vector: Vec<u32>,
}

impl Embedder for FixedEmbedder {
    fn embed(&self, _content: String) -> Result<Vec<u32>, String> {
        Ok(self.vector.clone())
    }
}

struct FailingEmbedder;

impl Embedder for FailingEmbedder {
    fn embed(&self, _content: String) -> Result<Vec<u32>, String> {
        Err("embedding failed".to_string())
    }
}

#[test]
fn new_store_is_empty() {
    let st = VectorStore::new(4).unwrap();
    assert_eq!(st.len(), 0);
    assert!(st.is_empty());
}

#[test]
fn wrong_length_vector_is_rejected_unwritten() {
    let mut st = VectorStore::new(3).unwrap();
    let r = st.set_vector(
        "a".to_string(),
        bits_of(&[1.0, 2.0]),
        "t".to_string(),
        "u".to_string(),
        None,
    );
    match r {
        Err(StoreError::DimensionMismatch { expected, actual }) => {
            assert_eq!(expected, 3);
            assert_eq!(actual, 2);
        }
        _ => panic!("expected a dimension mismatch"),
    }
    assert_eq!(st.len(), 0);
}

#[test]
fn wrong_length_produced_vector_is_rejected() {
    let mut st = VectorStore::new(3).unwrap();
    let emb = FixedEmbedder { vector: bits_of(&[1.0, 0.0]) };
    let r = st.set(
        "a".to_string(),
        "content".to_string(),
        "t".to_string(),
        "u".to_string(),
        "s".to_string(),
        &emb,
    );
    match r {
        Err(StoreError::DimensionMismatch { expected, actual }) => {
            assert_eq!(expected, 3);
            assert_eq!(actual, 2);
        }
        _ => panic!("expected a dimension mismatch"),
    }
    assert!(st.is_empty());
}

#[test]
fn set_then_get_returns_stored_fields() {
    let mut st = VectorStore::new(3).unwrap();
    let emb = FixedEmbedder { vector: bits_of(&[1.0, 0.0, 0.0]) };
    st.set(
        "doc1".to_string(),
        "raw content".to_string(),
        "T1".to_string(),
        "u1".to_string(),
        "S1".to_string(),
        &emb,
    )
    .unwrap();
    let f = st.get("doc1".to_string()).unwrap();
    assert_eq!(f.title.as_deref(), Some("T1"));
    assert_eq!(f.url.as_deref(), Some("u1"));
    assert_eq!(f.summary.as_deref(), Some("S1"));
    assert_ne!(f.title.as_deref(), Some("raw content"));
    assert_ne!(f.url.as_deref(), Some("raw content"));
    assert_ne!(f.summary.as_deref(), Some("raw content"));
}

#[test]
fn get_missing_id_is_absent_not_error() {
    let st = VectorStore::new(2).unwrap();
    assert!(st.get("nobody".to_string()).is_none());
    assert!(st.get_metadata("nobody".to_string()).is_none());
}

#[test]
fn get_metadata_reads_like_get() {
    let mut st = VectorStore::new(2).unwrap();
    st.set_vector(
        "a".to_string(),
        bits_of(&[1.0, 0.0]),
        "t".to_string(),
        "u".to_string(),
        Some("s".to_string()),
    )
    .unwrap();
    let f = st.get_metadata("a".to_string()).unwrap();
    assert_eq!(f.title.as_deref(), Some("t"));
    assert_eq!(f.url.as_deref(), Some("u"));
    assert_eq!(f.summary.as_deref(), Some("s"));
}

#[test]
fn upsert_same_id_keeps_one_record() {
    let mut st = VectorStore::new(2).unwrap();
    st.set_vector(
        "a".to_string(),
        bits_of(&[1.0, 0.0]),
        "t1".to_string(),
        "u1".to_string(),
        None,
    )
    .unwrap();
    st.set_vector(
        "a".to_string(),
        bits_of(&[0.0, 1.0]),
        "t2".to_string(),
        "u2".to_string(),
        Some("s2".to_string()),
    )
    .unwrap();
    assert_eq!(st.len(), 1);
    let f = st.get("a".to_string()).unwrap();
    assert_eq!(f.title.as_deref(), Some("t2"));
    assert_eq!(f.url.as_deref(), Some("u2"));
    assert_eq!(f.summary.as_deref(), Some("s2"));
}

#[test]
fn summary_is_optional() {
    let mut st = VectorStore::new(2).unwrap();
    st.set_vector(
        "a".to_string(),
        bits_of(&[1.0, 0.0]),
        "t".to_string(),
        "u".to_string(),
        None,
    )
    .unwrap();
    let f = st.get("a".to_string()).unwrap();
    assert_eq!(f.title.as_deref(), Some("t"));
    assert_eq!(f.url.as_deref(), Some("u"));
    assert!(f.summary.is_none());
}

#[test]
fn remove_missing_id_is_noop_success() {
    let mut st = VectorStore::new(2).unwrap();
    st.set_vector(
        "a".to_string(),
        bits_of(&[1.0, 0.0]),
        "t".to_string(),
        "u".to_string(),
        None,
    )
    .unwrap();
    assert!(st.rm("missing".to_string()).is_ok());
    assert_eq!(st.len(), 1);
}

#[test]
fn remove_deletes_the_record() {
    let mut st = VectorStore::new(2).unwrap();
    st.set_vector(
        "a".to_string(),
        bits_of(&[1.0, 0.0]),
        "t".to_string(),
        "u".to_string(),
        None,
    )
    .unwrap();
    assert!(st.rm("a".to_string()).is_ok());
    assert_eq!(st.len(), 0);
    assert!(st.get("a".to_string()).is_none());
}

#[test]
fn update_changes_only_given_fields() {
    let mut st = VectorStore::new(2).unwrap();
    st.set_vector(
        "a".to_string(),
        bits_of(&[1.0, 0.0]),
        "told".to_string(),
        "uold".to_string(),
        Some("sold".to_string()),
    )
    .unwrap();
    st.update("a".to_string(), Some("tnew".to_string()), None, None)
        .unwrap();
    let f = st.get("a".to_string()).unwrap();
    assert_eq!(f.title.as_deref(), Some("tnew"));
    assert_eq!(f.url.as_deref(), Some("uold"));
    assert_eq!(f.summary.as_deref(), Some("sold"));
    let hits = st.search(bits_of(&[1.0, 0.0]), Some(1)).unwrap();
    assert_eq!(hits.len(), 1);
    assert_eq!(hits[0].id, "a");
}

#[test]
fn update_missing_id_fails_not_found() {
    let mut st = VectorStore::new(2).unwrap();
    let r = st.update("ghost".to_string(), Some("t".to_string()), None, None);
    match r {
        Err(StoreError::NotFound(id)) => assert_eq!(id, "ghost"),
        _ => panic!("expected a not-found error"),
    }
}

#[test]
fn embedding_failure_propagates_unchanged() {
    let mut st = VectorStore::new(2).unwrap();
    let r = st.set(
        "a".to_string(),
        "c".to_string(),
        "t".to_string(),
        "u".to_string(),
        "s".to_string(),
        &FailingEmbedder,
    );
    match r {
        Err(StoreError::EmbeddingProduction(msg)) => assert_eq!(msg, "embedding failed"),
        _ => panic!("expected an embedding production error"),
    }
    assert!(st.is_empty());
}

#[test]
fn oversized_components_are_rejected_unwritten() {
    let mut st = VectorStore::new(1).unwrap();
    let r = st.set_vector(
        "a".to_string(),
        vec![f32::MAX.to_bits()],
        "t".to_string(),
        "u".to_string(),
        None,
    );
    assert!(matches!(r, Err(StoreError::StoreWrite(_))));
    assert_eq!(st.len(), 0);
}
