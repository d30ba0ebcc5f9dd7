//! Trusted boundary to the index engine and its backing location.
//!
//! Everything the façade knows of the engine is said here, over three
//! names: `store_model`, the active records as a map from identifier to
//! vector bit patterns and string fields; `store_dim`, the vector length
//! the engine has locked in (zero until the first insert); and
//! `plain_store`, the state this façade creates and preserves.  Each
//! wrapper's contract states what the engine's source shows of the one
//! call its body makes.

use vstd::prelude::*;
use crate::bits::{vec_ok, score_le};

verus! {

#[verifier::external_type_specification]
#[verifier::external_body]
pub struct ExVecStore(vecstore::VecStore);

#[verifier::external_type_specification]
#[verifier::external_body]
pub struct ExTempDir(tempfile::TempDir);

/// The engine's active records: for each identifier, the stored vector's
/// bit patterns and the metadata fields, each value read as a string.
pub uninterp spec fn store_model(s: vecstore::VecStore) -> Map<Seq<char>, (Seq<u32>, Map<Seq<char>, Seq<char>>)>;

/// The vector length the engine has locked in: zero until the first
/// insert fixes it, that insert's length afterwards.
pub uninterp spec fn store_dim(s: vecstore::VecStore) -> nat;

/// The store is in the plain state this façade creates and preserves:
/// the default (cosine-distance) ranking configuration, an index
/// consistent with the record table, no soft-deleted and no expiring
/// records, every metadata value a JSON string, and every record's
/// vector of the store's locked-in dimension.
pub uninterp spec fn plain_store(s: vecstore::VecStore) -> bool;

/// The model of a store with no records.
pub open spec fn empty_model() -> Map<Seq<char>, (Seq<u32>, Map<Seq<char>, Seq<char>>)> {
    Map::empty()
}

/// Every stored vector's components are acceptable to the engine's
/// distance arithmetic.
pub open spec fn all_stored_ok(m: Map<Seq<char>, (Seq<u32>, Map<Seq<char>, Seq<char>>)>) -> bool {
    forall|k: Seq<char>| #[trigger] m.contains_key(k) ==> vec_ok(m[k].0)
}

/// One active record as the engine hands it out: its identifier and its
/// metadata fields, a string value where the stored value was a string.
pub struct RecordEntry {
    pub id: String,
    pub fields: Vec<(String, Option<String>)>,
}

/// One ranked search hit as the engine hands it out: identifier, the bit
/// pattern of the engine's raw score, and the metadata fields.
pub struct RawHit {
    pub id: String,
    pub score_bits: u32,
    pub fields: Vec<(String, Option<String>)>,
}

/// Every field value came out as a string.
pub open spec fn pair_values_present(ps: Seq<(String, Option<String>)>) -> bool {
    forall|i: int| 0 <= i < ps.len() ==> (#[trigger] ps[i]).1 is Some
}

/// No field name occurs twice.
pub open spec fn pair_keys_distinct(ps: Seq<(String, Option<String>)>) -> bool {
    forall|i: int, j: int| 0 <= i < j < ps.len() ==> (#[trigger] ps[i]).0@ != (#[trigger] ps[j]).0@
}

/// The field map a sequence of read-out pairs denotes; a value that did
/// not come out as a string reads as the empty string.
pub open spec fn read_fields(ps: Seq<(String, Option<String>)>) -> Map<Seq<char>, Seq<char>>
    decreases ps.len(),
{
    if ps.len() == 0 {
        Map::empty()
    } else {
        read_fields(ps.drop_last()).insert(
            ps.last().0@,
            if ps.last().1 is Some { ps.last().1->Some_0@ } else { Seq::empty() },
        )
    }
}

/// The field map a sequence of written pairs denotes; a later pair with
/// the same name wins, as it does in the engine's field table.
pub open spec fn written_fields(ps: Seq<(String, String)>) -> Map<Seq<char>, Seq<char>>
    decreases ps.len(),
{
    if ps.len() == 0 {
        Map::empty()
    } else {
        written_fields(ps.drop_last()).insert(ps.last().0@, ps.last().1@)
    }
}

/// A freshly opened engine together with the handle that keeps its
/// backing directory alive; dropping the handle removes the directory.
pub struct Backing {
    pub eng: vecstore::VecStore,
    pub dir: tempfile::TempDir,
}

/// Relies on tempfile::tempdir, which creates a fresh, uniquely named,
/// empty directory (removed again when the returned handle is dropped),
/// and on vecstore::VecStore::open, which at an empty directory opens a
/// brand-new empty store with the default configuration and no
/// locked-in dimension.
#[verifier::external_body]
pub fn open_backing() -> (r: Result<Backing, String>)
    ensures
        r is Ok ==> plain_store(r->Ok_0.eng),
        r is Ok ==> store_dim(r->Ok_0.eng) == 0,
        r is Ok ==> store_model(r->Ok_0.eng) == empty_model(),
{
    let dir = tempfile::tempdir().map_err(|e| e.to_string())?;
    let eng = vecstore::VecStore::open(dir.path()).map_err(|e| e.to_string())?;
    Ok(Backing { eng, dir })
}

/// Relies on vecstore::VecStore::upsert: on a plain store it inserts or
/// replaces the record for `id` (a later duplicate field name winning),
/// locks the dimension in on the first insert, and succeeds whenever the
/// vector is nonempty and of the locked-in dimension.
#[verifier::external_body]
pub fn engine_upsert(s: &mut vecstore::VecStore, id: String, vector: &Vec<u32>, fields: Vec<(String, String)>) -> (r: Result<(), String>)
    requires
        plain_store(*old(s)),
        all_stored_ok(store_model(*old(s))),
        vec_ok(vector@),
        vector@.len() > 0,
        store_dim(*old(s)) == 0 || store_dim(*old(s)) == vector@.len(),
    ensures
        r is Ok,
        plain_store(*final(s)),
        store_dim(*final(s)) == vector@.len(),
        store_model(*final(s)) == store_model(*old(s)).insert(id@, (vector@, written_fields(fields@))),
{
    let mut m: std::collections::HashMap<String, serde_json::Value> = std::collections::HashMap::new();
    for (k, v) in fields {
        m.insert(k, serde_json::Value::String(v));
    }
    let meta = vecstore::Metadata { fields: m };
    s.upsert(id, bytemuck::cast_slice(vector.as_slice()).to_vec(), meta).map_err(|e| e.to_string())
}

/// Relies on vecstore::VecStore::query: on a plain store whose dimension
/// matches the query vector it cannot fail; it hands back at most `k`
/// hits, each a distinct active record with its fields, ranked by the
/// engine's cosine distance, most similar first, so the raw scores come
/// out nondecreasing.
#[verifier::external_body]
pub fn engine_query(s: &vecstore::VecStore, vector: &Vec<u32>, k: usize) -> (r: Result<Vec<RawHit>, String>)
    requires
        plain_store(*s),
        all_stored_ok(store_model(*s)),
        vec_ok(vector@),
        store_dim(*s) == 0 || store_dim(*s) == vector@.len(),
    ensures
        r is Ok,
        r->Ok_0@.len() <= k,
        store_dim(*s) == 0 ==> r->Ok_0@.len() == 0,
        forall|i: int| 0 <= i < r->Ok_0@.len() ==> {
            let h = #[trigger] r->Ok_0@[i];
            store_model(*s).contains_key(h.id@)
                && pair_values_present(h.fields@)
                && pair_keys_distinct(h.fields@)
                && read_fields(h.fields@) == store_model(*s)[h.id@].1
        },
        forall|i: int, j: int| 0 <= i < j < r->Ok_0@.len()
            ==> (#[trigger] r->Ok_0@[i]).id@ != (#[trigger] r->Ok_0@[j]).id@,
        forall|i: int, j: int| 0 <= i < j < r->Ok_0@.len()
            ==> score_le((#[trigger] r->Ok_0@[i]).score_bits, (#[trigger] r->Ok_0@[j]).score_bits),
{
    let q = vecstore::Query { vector: bytemuck::cast_slice(vector.as_slice()).to_vec(), k, filter: None };
    let ns = s.query(q).map_err(|e| e.to_string())?;
    let mut out: Vec<RawHit> = Vec::new();
    for n in ns {
        let mut fs: Vec<(String, Option<String>)> = Vec::new();
        for (fk, fv) in n.metadata.fields {
            fs.push((fk, match fv { serde_json::Value::String(x) => Some(x), _ => None }));
        }
        out.push(RawHit { id: n.id, score_bits: n.score.to_bits(), fields: fs });
    }
    Ok(out)
}

/// Relies on vecstore::VecStore::delete, which removes the record and
/// its index entry, and fails exactly when no record has the identifier.
#[verifier::external_body]
pub fn engine_delete(s: &mut vecstore::VecStore, id: &String) -> (r: Result<(), String>)
    requires
        plain_store(*old(s)),
    ensures
        plain_store(*final(s)),
        store_dim(*final(s)) == store_dim(*old(s)),
        r is Ok <==> store_model(*old(s)).contains_key(id@),
        store_model(*final(s)) == store_model(*old(s)).remove(id@),
{
    s.delete(id.as_str()).map_err(|e| e.to_string())
}

/// Relies on vecstore::VecStore::update_metadata, which replaces the
/// record's whole field table, leaves its vector alone, and fails
/// exactly when no record has the identifier.
#[verifier::external_body]
pub fn engine_update_fields(s: &mut vecstore::VecStore, id: &String, fields: Vec<(String, String)>) -> (r: Result<(), String>)
    requires
        plain_store(*old(s)),
    ensures
        plain_store(*final(s)),
        store_dim(*final(s)) == store_dim(*old(s)),
        r is Ok <==> store_model(*old(s)).contains_key(id@),
        r is Ok ==> store_model(*final(s)) == store_model(*old(s)).insert(
            id@,
            (store_model(*old(s))[id@].0, written_fields(fields@)),
        ),
        r is Err ==> store_model(*final(s)) == store_model(*old(s)),
{
    let mut m: std::collections::HashMap<String, serde_json::Value> = std::collections::HashMap::new();
    for (k, v) in fields {
        m.insert(k, serde_json::Value::String(v));
    }
    s.update_metadata(id.as_str(), vecstore::Metadata { fields: m }).map_err(|e| e.to_string())
}

/// Relies on vecstore::VecStore::list_active, which hands out every
/// active record exactly once, in no particular order.
#[verifier::external_body]
pub fn engine_list(s: &vecstore::VecStore) -> (r: Vec<RecordEntry>)
    requires
        plain_store(*s),
    ensures
        r@.len() == store_model(*s).len(),
        forall|i: int| 0 <= i < r@.len() ==> {
            let e = #[trigger] r@[i];
            store_model(*s).contains_key(e.id@)
                && pair_values_present(e.fields@)
                && pair_keys_distinct(e.fields@)
                && read_fields(e.fields@) == store_model(*s)[e.id@].1
        },
        forall|i: int, j: int| 0 <= i < j < r@.len()
            ==> (#[trigger] r@[i]).id@ != (#[trigger] r@[j]).id@,
        forall|k: Seq<char>| #[trigger] store_model(*s).contains_key(k)
            ==> exists|i: int| 0 <= i < r@.len() && (#[trigger] r@[i]).id@ == k,
{
    let mut out: Vec<RecordEntry> = Vec::new();
    for rec in s.list_active() {
        let mut fs: Vec<(String, Option<String>)> = Vec::new();
        for (fk, fv) in rec.metadata.fields {
            fs.push((fk, match fv { serde_json::Value::String(x) => Some(x), _ => None }));
        }
        out.push(RecordEntry { id: rec.id, fields: fs });
    }
    out
}

/// Relies on vecstore::VecStore::len, which counts the active records.
#[verifier::external_body]
pub fn engine_count(s: &vecstore::VecStore) -> (r: usize)
    requires
        plain_store(*s),
    ensures
        r == store_model(*s).len(),
{
    s.len()
}

} // verus!
