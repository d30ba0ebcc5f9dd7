//! The caller-facing vector store façade.
//!
//! The façade owns one engine handle, a fixed vector dimension, and the
//! backing directory's lifetime.  It validates every vector's dimension
//! before anything is written, builds metadata strictly from the policy
//! fields (title, url, and optionally summary; never the raw content),
//! and layers upsert, search, point read, partial metadata update,
//! delete and counting over the engine.
//!
//! Writers take `&mut self` and readers `&self`, so the single-writer,
//! multi-reader discipline around the shared engine handle is enforced
//! by the borrow rules at compile time.

use vstd::prelude::*;
use crate::bits::{vec_ok, score_le, vector_within_range};
use crate::engine::{
    plain_store, store_dim, store_model, empty_model, all_stored_ok,
    pair_values_present, pair_keys_distinct, read_fields, written_fields,
    open_backing, engine_upsert, engine_query, engine_delete,
    engine_update_fields, engine_list, engine_count,
};

verus! {

/// Everything a façade operation can fail with.
#[derive(Debug, Clone, PartialEq)]
pub enum StoreError {
    /// The backing location or the engine could not be opened; no store
    /// value is produced.
    Initialization(String),
    /// A vector's length disagrees with the configured dimension; checked
    /// before any mutation.
    DimensionMismatch { expected: usize, actual: usize },
    /// The caller-supplied embedding producer failed, or produced a
    /// vector the index arithmetic cannot take; the cause is kept.
    EmbeddingProduction(String),
    /// The engine could not complete a write.
    StoreWrite(String),
    /// The engine could not complete a query.
    StoreRead(String),
    /// No record carries the identifier; raised only by `update`.
    NotFound(String),
}

/// A caller-supplied embedding producer: turns raw content into a vector
/// of single-precision bit patterns.  It runs synchronously on the
/// caller's thread, with no timeout; a failure it reports is handed back
/// unchanged.  An implementation must not call back into the store it is
/// embedding for.
pub trait Embedder {
    fn embed(&self, content: String) -> Result<Vec<u32>, String>;
}

/// The policy fields of one record, as a point read returns them.
#[derive(Debug, Clone, PartialEq)]
pub struct DocFields {
    pub title: Option<String>,
    pub url: Option<String>,
    pub summary: Option<String>,
}

/// One search result: the record's identifier, the bit pattern of the
/// engine's raw ranking score, and the policy fields.
#[derive(Debug, Clone, PartialEq)]
pub struct SearchHit {
    pub id: String,
    pub score_bits: u32,
    pub fields: DocFields,
}

/// A field map with nothing in it.
pub open spec fn no_fields() -> Map<Seq<char>, Seq<char>> {
    Map::empty()
}

/// The view of an optional string.
pub open spec fn opt_view(s: Option<String>) -> Option<Seq<char>> {
    if s is Some {
        Some(s->Some_0@)
    } else {
        None
    }
}

/// The field map the policy persists: title and url always, summary when
/// given, and nothing else -- in particular never the raw content.
pub open spec fn fields_model(t: Seq<char>, u: Seq<char>, s: Option<Seq<char>>) -> Map<Seq<char>, Seq<char>> {
    if s is Some {
        no_fields().insert("title"@, t).insert("url"@, u).insert("summary"@, s->Some_0)
    } else {
        no_fields().insert("title"@, t).insert("url"@, u)
    }
}

/// A stored field map obeys the policy: title and url are present, and
/// no field beyond title, url and summary exists.
pub open spec fn doc_fields_wf(m: Map<Seq<char>, Seq<char>>) -> bool {
    &&& m.dom().subset_of(set!["title"@, "url"@, "summary"@])
    &&& m.contains_key("title"@)
    &&& m.contains_key("url"@)
}

/// A stored field map after a partial update: each given field replaces
/// its prior value, each omitted field keeps it.
pub open spec fn updated_fields(m: Map<Seq<char>, Seq<char>>, t: Option<Seq<char>>, u: Option<Seq<char>>, s: Option<Seq<char>>) -> Map<Seq<char>, Seq<char>> {
    let m1 = if t is Some { m.insert("title"@, t->Some_0) } else { m };
    let m2 = if u is Some { m1.insert("url"@, u->Some_0) } else { m1 };
    if s is Some { m2.insert("summary"@, s->Some_0) } else { m2 }
}

/// The optional value agrees with the field map at `key`: present with
/// the stored value exactly when the map has the field.
pub open spec fn field_opt_matches(fm: Map<Seq<char>, Seq<char>>, key: Seq<char>, v: Option<String>) -> bool {
    &&& v is Some <==> fm.contains_key(key)
    &&& v is Some ==> v->Some_0@ == fm[key]
}

/// The read-out policy fields agree with the stored field map.
pub open spec fn doc_matches(fm: Map<Seq<char>, Seq<char>>, d: DocFields) -> bool {
    &&& field_opt_matches(fm, "title"@, d.title)
    &&& field_opt_matches(fm, "url"@, d.url)
    &&& field_opt_matches(fm, "summary"@, d.summary)
}

/// The number of results a search is asked for: the given bound, or five
/// where none is given.
pub open spec fn effective_k(k: Option<usize>) -> usize {
    if k is Some {
        k->Some_0
    } else {
        5
    }
}

/// With distinct keys and every value present, the field map a pair
/// sequence denotes looks up exactly as the sequence does.
proof fn lemma_read_fields_lookup(ps: Seq<(String, Option<String>)>, key: Seq<char>)
    requires
        pair_keys_distinct(ps),
        pair_values_present(ps),
    ensures
        read_fields(ps).contains_key(key) <==> exists|i: int| 0 <= i < ps.len() && (#[trigger] ps[i]).0@ == key,
        forall|i: int| 0 <= i < ps.len() && (#[trigger] ps[i]).0@ == key ==> read_fields(ps)[key] == ps[i].1->Some_0@,
    decreases ps.len(),
{
    if ps.len() > 0 {
        let head = ps.drop_last();
        assert(pair_keys_distinct(head)) by {
            assert(forall|i: int, j: int| 0 <= i < j < head.len() ==> (#[trigger] head[i]).0@ != (#[trigger] head[j]).0@) by {
                assert(forall|i: int| 0 <= i < head.len() ==> head[i] == ps[i]);
            }
        }
        assert(pair_values_present(head)) by {
            assert(forall|i: int| 0 <= i < head.len() ==> head[i] == ps[i]);
        }
        lemma_read_fields_lookup(head, key);
        let last = ps.last();
        if last.0@ == key {
            assert(forall|i: int| 0 <= i < ps.len() - 1 ==> (#[trigger] ps[i]).0@ != key);
            assert(read_fields(ps)[key] == last.1->Some_0@);
        } else {
            assert(forall|i: int| 0 <= i < head.len() ==> head[i] == ps[i]);
        }
    }
}

/// The policy map always obeys the policy.
proof fn lemma_fields_model_wf(t: Seq<char>, u: Seq<char>, s: Option<Seq<char>>)
    ensures
        doc_fields_wf(fields_model(t, u, s)),
{
}

/// A policy-shaped field map is exactly the policy map of what it holds.
proof fn lemma_doc_fields_shape(m: Map<Seq<char>, Seq<char>>)
    requires
        doc_fields_wf(m),
    ensures
        m == fields_model(
            m["title"@],
            m["url"@],
            if m.contains_key("summary"@) { Some(m["summary"@]) } else { None },
        ),
{
    reveal_strlit("title");
    reveal_strlit("url");
    reveal_strlit("summary");
    let s = if m.contains_key("summary"@) { Some(m["summary"@]) } else { None };
    let r = fields_model(m["title"@], m["url"@], s);
    assert("title"@.len() == 5 && "url"@.len() == 3 && "summary"@.len() == 7);
    assert("title"@ != "url"@ && "title"@ != "summary"@ && "url"@ != "summary"@);
    assert forall|k: Seq<char>| #[trigger] m.contains_key(k) implies r.contains_key(k) && r[k] == m[k] by {
        assert(set!["title"@, "url"@, "summary"@].contains(k));
    }
    assert(m =~= r);
}

/// A partial update of a policy-shaped map is again a policy map, with
/// each given field replaced and each omitted one kept.
proof fn lemma_updated_fields(m: Map<Seq<char>, Seq<char>>, t: Option<Seq<char>>, u: Option<Seq<char>>, s: Option<Seq<char>>)
    requires
        doc_fields_wf(m),
    ensures
        updated_fields(m, t, u, s) == fields_model(
            if t is Some { t->Some_0 } else { m["title"@] },
            if u is Some { u->Some_0 } else { m["url"@] },
            if s is Some { s } else if m.contains_key("summary"@) { Some(m["summary"@]) } else { None },
        ),
{
    reveal_strlit("title");
    reveal_strlit("url");
    reveal_strlit("summary");
    let nt = if t is Some { t->Some_0 } else { m["title"@] };
    let nu = if u is Some { u->Some_0 } else { m["url"@] };
    let ns = if s is Some { s } else if m.contains_key("summary"@) { Some(m["summary"@]) } else { None };
    let l = updated_fields(m, t, u, s);
    let r = fields_model(nt, nu, ns);
    assert("title"@.len() == 5 && "url"@.len() == 3 && "summary"@.len() == 7);
    assert("title"@ != "url"@ && "title"@ != "summary"@ && "url"@ != "summary"@);
    assert forall|k: Seq<char>| #[trigger] l.contains_key(k) implies r.contains_key(k) && r[k] == l[k] by {
        if m.contains_key(k) {
            assert(set!["title"@, "url"@, "summary"@].contains(k));
        } else {
            assert(k == "title"@ || k == "url"@ || k == "summary"@);
        }
    }
    assert forall|k: Seq<char>| #[trigger] r.contains_key(k) implies l.contains_key(k) by {
        assert(k == "title"@ || k == "url"@ || k == "summary"@ || m.contains_key(k));
    }
    assert(l =~= r);
}

/// Builds the pair list the engine is given for a record's fields, and
/// relates it to the policy map.
fn policy_fields(title: String, url: String, summary: Option<String>) -> (fields: Vec<(String, String)>)
    ensures
        written_fields(fields@) == fields_model(title@, url@, opt_view(summary)),
{
    let mut fields: Vec<(String, String)> = Vec::new();
    fields.push(("title".to_owned(), title));
    fields.push(("url".to_owned(), url));
    match summary {
        Some(sm) => {
            fields.push(("summary".to_owned(), sm));
            proof {
                let s = fields@;
                let d1 = s.drop_last();
                let d2 = d1.drop_last();
                let d3 = d2.drop_last();
                assert(d3 =~= Seq::<(String, String)>::empty());
                assert(written_fields(d3) =~= no_fields());
                assert(d2.last() == s[0] && d1.last() == s[1]);
                assert(written_fields(d2) =~= no_fields().insert(s[0].0@, s[0].1@));
                assert(written_fields(d1) =~= no_fields().insert(s[0].0@, s[0].1@).insert(s[1].0@, s[1].1@));
                assert(written_fields(s) =~= fields_model(title@, url@, opt_view(Some(sm))));
            }
            fields
        }
        None => {
            proof {
                let s = fields@;
                let d1 = s.drop_last();
                let d2 = d1.drop_last();
                assert(d2 =~= Seq::<(String, String)>::empty());
                assert(written_fields(d2) =~= no_fields());
                assert(d1.last() == s[0]);
                assert(written_fields(d1) =~= no_fields().insert(s[0].0@, s[0].1@));
                assert(written_fields(s) =~= fields_model(title@, url@, opt_view(None)));
            }
            fields
        }
    }
}

/// Looks a field up in a read-out pair list by its name.
fn find_value(pairs: &Vec<(String, Option<String>)>, key: &String) -> (v: Option<String>)
    requires
        pair_values_present(pairs@),
        pair_keys_distinct(pairs@),
    ensures
        field_opt_matches(read_fields(pairs@), key@, v),
{
    let mut i: usize = 0;
    while i < pairs.len()
        invariant
            pair_values_present(pairs@),
            pair_keys_distinct(pairs@),
            0 <= i <= pairs@.len(),
            forall|j: int| 0 <= j < i ==> (#[trigger] pairs@[j]).0@ != key@,
        decreases pairs@.len() - i,
    {
        let p = &pairs[i];
        if p.0 == *key {
            proof {
                lemma_read_fields_lookup(pairs@, key@);
            }
            match &p.1 {
                Some(v) => {
                    return Some(v.clone());
                }
                None => {
                    return None;
                }
            }
        }
        i = i + 1;
    }
    proof {
        lemma_read_fields_lookup(pairs@, key@);
    }
    None
}

/// Projects a read-out pair list onto the policy fields.
fn project_fields(pairs: &Vec<(String, Option<String>)>) -> (d: DocFields)
    requires
        pair_values_present(pairs@),
        pair_keys_distinct(pairs@),
    ensures
        doc_matches(read_fields(pairs@), d),
{
    let tkey: String = "title".to_owned();
    let ukey: String = "url".to_owned();
    let skey: String = "summary".to_owned();
    DocFields {
        title: find_value(pairs, &tkey),
        url: find_value(pairs, &ukey),
        summary: find_value(pairs, &skey),
    }
}

/// A concurrency-safe façade over the index engine: a fixed dimension,
/// one engine handle, and the backing directory, which is removed again
/// when the value is dropped.
pub struct VectorStore {
    eng: vecstore::VecStore,
    dir: tempfile::TempDir,
    dimension: usize,
}

impl VectorStore {
    /// The fixed vector length this store accepts.
    pub closed spec fn dim(self) -> nat {
        self.dimension as nat
    }

    /// The store's records: for each identifier, the vector's bit
    /// patterns and the persisted policy fields.
    pub closed spec fn model(self) -> Map<Seq<char>, (Seq<u32>, Map<Seq<char>, Seq<char>>)> {
        store_model(self.eng)
    }

    /// The store is well formed: the engine is in the plain state this
    /// façade keeps it in, the dimension is positive and consistent with
    /// what the engine has locked in, and every record carries a vector
    /// of the right length with acceptable components and policy-shaped
    /// fields.
    pub closed spec fn wf(self) -> bool {
        &&& plain_store(self.eng)
        &&& self.dimension >= 1
        &&& store_dim(self.eng) == 0 || store_dim(self.eng) == self.dim()
        &&& all_stored_ok(store_model(self.eng))
        &&& forall|k: Seq<char>| #[trigger] store_model(self.eng).contains_key(k) ==> {
            &&& store_model(self.eng)[k].0.len() == self.dim()
            &&& doc_fields_wf(store_model(self.eng)[k].1)
        }
    }

    /// Opens a fresh, empty store of the given dimension at a fresh,
    /// uniquely named backing location of its own.  The location lives
    /// exactly as long as the returned value and is removed, best
    /// effort, when it is dropped.
    pub fn new(dimension: usize) -> (r: Result<VectorStore, StoreError>)
        requires
            dimension >= 1,
        ensures
            r is Ok ==> r->Ok_0.wf() && r->Ok_0.dim() == dimension && r->Ok_0.model() == empty_model(),
            r is Err ==> r->Err_0 is Initialization,
    {
        match open_backing() {
            Ok(b) => Ok(VectorStore { eng: b.eng, dir: b.dir, dimension }),
            Err(e) => Err(StoreError::Initialization(e)),
        }
    }

    /// Inserts or replaces the record for `id` from a precomputed vector
    /// of bit patterns, persisting exactly the policy fields.  A vector
    /// of the wrong length is rejected before anything changes; one with
    /// components outside the range the engine's arithmetic supports is
    /// likewise rejected unwritten.
    pub fn set_vector(&mut self, id: String, vector: Vec<u32>, title: String, url: String, summary: Option<String>) -> (r: Result<(), StoreError>)
        requires
            old(self).wf(),
        ensures
            final(self).wf(),
            final(self).dim() == old(self).dim(),
            vector@.len() != old(self).dim() ==> final(self).model() == old(self).model(),
            vector@.len() != old(self).dim() ==> (r matches Err(StoreError::DimensionMismatch { expected, actual }) && expected == old(self).dim() && actual == vector@.len()),
            vector@.len() == old(self).dim() && !vec_ok(vector@) ==> final(self).model() == old(self).model() && r is Err && r->Err_0 is StoreWrite,
            vector@.len() == old(self).dim() && vec_ok(vector@) ==> r is Ok && final(self).model() == old(self).model().insert(id@, (vector@, fields_model(title@, url@, opt_view(summary)))),
    {
        if vector.len() != self.dimension {
            return Err(StoreError::DimensionMismatch { expected: self.dimension, actual: vector.len() });
        }
        if !vector_within_range(&vector) {
            return Err(StoreError::StoreWrite("vector components outside the range the index arithmetic supports".to_owned()));
        }
        let ghost t = title@;
        let ghost u = url@;
        let ghost sv = opt_view(summary);
        let fields = policy_fields(title, url, summary);
        proof {
            lemma_fields_model_wf(t, u, sv);
        }
        let res = engine_upsert(&mut self.eng, id, &vector, fields);
        match res {
            Ok(()) => Ok(()),
            Err(e) => Err(StoreError::StoreWrite(e)),
        }
    }

    /// Inserts or replaces the record for `id` from raw content: the
    /// producer is called exactly once, synchronously, before anything
    /// is persisted; its output vector is validated against the
    /// configured dimension; and only the derived policy fields are
    /// stored -- the content is discarded with this call and appears in
    /// no persisted record.
    pub fn set<E: Embedder>(&mut self, id: String, content: String, title: String, url: String, summary: String, producer: &E) -> (r: Result<(), StoreError>)
        requires
            old(self).wf(),
        ensures
            final(self).wf(),
            final(self).dim() == old(self).dim(),
            r is Err ==> final(self).model() == old(self).model(),
            r is Err ==> (r->Err_0 is EmbeddingProduction || r->Err_0 is DimensionMismatch || r->Err_0 is StoreWrite),
            (r matches Err(StoreError::DimensionMismatch { expected, actual }) ==> expected == old(self).dim() && actual != old(self).dim()),
            r is Ok ==> exists|bits: Seq<u32>| #[trigger] vec_ok(bits) && bits.len() == old(self).dim()
                && final(self).model() == old(self).model().insert(id@, (bits, fields_model(title@, url@, Some(summary@)))),
    {
        match producer.embed(content) {
            Err(e) => Err(StoreError::EmbeddingProduction(e)),
            Ok(v) => {
                let ghost bits = v@;
                let res = self.set_vector(id, v, title, url, Some(summary));
                proof {
                    if res is Ok {
                        assert(vec_ok(bits) && bits.len() == old(self).dim());
                    }
                }
                res
            }
        }
    }

    /// Ranks the store's records against a query vector and hands back
    /// at most `k` of them (five where `k` is not given), each with its
    /// policy fields, most similar first: the engine's raw scores come
    /// out nondecreasing, and never include the same record twice.  A
    /// query vector of the wrong length is rejected, as any write would
    /// be.
    pub fn search(&self, vector: Vec<u32>, k: Option<usize>) -> (r: Result<Vec<SearchHit>, StoreError>)
        requires
            self.wf(),
        ensures
            vector@.len() != self.dim() ==> (r matches Err(StoreError::DimensionMismatch { expected, actual }) && expected == self.dim() && actual == vector@.len()),
            vector@.len() == self.dim() && !vec_ok(vector@) ==> r is Err && r->Err_0 is StoreRead,
            vector@.len() == self.dim() && vec_ok(vector@) ==> r is Ok,
            r is Ok ==> r->Ok_0@.len() <= effective_k(k),
            r is Ok ==> forall|i: int| 0 <= i < r->Ok_0@.len() ==> self.model().contains_key((#[trigger] r->Ok_0@[i]).id@) && doc_matches(self.model()[r->Ok_0@[i].id@].1, r->Ok_0@[i].fields),
            r is Ok ==> forall|i: int, j: int| 0 <= i < j < r->Ok_0@.len() ==> (#[trigger] r->Ok_0@[i]).id@ != (#[trigger] r->Ok_0@[j]).id@,
            r is Ok ==> forall|i: int, j: int| 0 <= i < j < r->Ok_0@.len() ==> score_le((#[trigger] r->Ok_0@[i]).score_bits, (#[trigger] r->Ok_0@[j]).score_bits),
    {
        if vector.len() != self.dimension {
            return Err(StoreError::DimensionMismatch { expected: self.dimension, actual: vector.len() });
        }
        if !vector_within_range(&vector) {
            return Err(StoreError::StoreRead("query vector components outside the range the index arithmetic supports".to_owned()));
        }
        let kk: usize = match k {
            Some(v) => v,
            None => 5,
        };
        let raw = match engine_query(&self.eng, &vector, kk) {
            Ok(v) => v,
            Err(e) => {
                return Err(StoreError::StoreRead(e));
            }
        };
        let mut out: Vec<SearchHit> = Vec::new();
        let mut i: usize = 0;
        while i < raw.len()
            invariant
                self.wf(),
                0 <= i <= raw@.len(),
                out@.len() == i,
                raw@.len() <= effective_k(k),
                forall|a: int| 0 <= a < raw@.len() ==> store_model(self.eng).contains_key((#[trigger] raw@[a]).id@)
                    && pair_values_present(raw@[a].fields@)
                    && pair_keys_distinct(raw@[a].fields@)
                    && read_fields(raw@[a].fields@) == store_model(self.eng)[raw@[a].id@].1,
                forall|a: int, b: int| 0 <= a < b < raw@.len() ==> (#[trigger] raw@[a]).id@ != (#[trigger] raw@[b]).id@,
                forall|a: int, b: int| 0 <= a < b < raw@.len() ==> score_le((#[trigger] raw@[a]).score_bits, (#[trigger] raw@[b]).score_bits),
                forall|a: int| 0 <= a < i ==> (#[trigger] out@[a]).id@ == raw@[a].id@
                    && out@[a].score_bits == raw@[a].score_bits
                    && doc_matches(self.model()[out@[a].id@].1, out@[a].fields),
            decreases raw@.len() - i,
        {
            let h = &raw[i];
            let fields = project_fields(&h.fields);
            out.push(SearchHit { id: h.id.clone(), score_bits: h.score_bits, fields });
            i = i + 1;
        }
        Ok(out)
    }

    /// Removes the record for `id` if one exists; removing an absent
    /// identifier succeeds and changes nothing.
    pub fn rm(&mut self, id: String) -> (r: Result<(), StoreError>)
        requires
            old(self).wf(),
        ensures
            r is Ok,
            final(self).wf(),
            final(self).dim() == old(self).dim(),
            final(self).model() == old(self).model().remove(id@),
    {
        let res = engine_delete(&mut self.eng, &id);
        match res {
            Ok(()) => Ok(()),
            Err(_) => Ok(()),
        }
    }

    /// Merges the given fields into the record's metadata: each field
    /// that is given replaces its prior value, each omitted one keeps
    /// it, and the stored vector is untouched.  Fails, changing nothing,
    /// exactly when no record carries the identifier.
    pub fn update(&mut self, id: String, title: Option<String>, url: Option<String>, summary: Option<String>) -> (r: Result<(), StoreError>)
        requires
            old(self).wf(),
        ensures
            final(self).wf(),
            final(self).dim() == old(self).dim(),
            !old(self).model().contains_key(id@) ==> final(self).model() == old(self).model(),
            !old(self).model().contains_key(id@) ==> (r matches Err(StoreError::NotFound(missing)) && missing@ == id@),
            old(self).model().contains_key(id@) ==> r is Ok && final(self).model() == old(self).model().insert(
                id@,
                (old(self).model()[id@].0, updated_fields(old(self).model()[id@].1, opt_view(title), opt_view(url), opt_view(summary))),
            ),
    {
        let rows = engine_list(&self.eng);
        let mut i: usize = 0;
        while i < rows.len()
            invariant
                old(self) == self,
                self.wf(),
                0 <= i <= rows@.len(),
                forall|a: int| 0 <= a < rows@.len() ==> store_model(self.eng).contains_key((#[trigger] rows@[a]).id@)
                    && pair_values_present(rows@[a].fields@)
                    && pair_keys_distinct(rows@[a].fields@)
                    && read_fields(rows@[a].fields@) == store_model(self.eng)[rows@[a].id@].1,
                forall|k: Seq<char>| #[trigger] store_model(self.eng).contains_key(k)
                    ==> exists|a: int| 0 <= a < rows@.len() && (#[trigger] rows@[a]).id@ == k,
                forall|a: int| 0 <= a < i ==> (#[trigger] rows@[a]).id@ != id@,
            decreases rows@.len() - i,
        {
            let row = &rows[i];
            if row.id == id {
                let ghost fm = store_model(self.eng)[id@].1;
                let tkey: String = "title".to_owned();
                let ukey: String = "url".to_owned();
                let skey: String = "summary".to_owned();
                let cur_title = find_value(&row.fields, &tkey);
                let cur_url = find_value(&row.fields, &ukey);
                let cur_summary = find_value(&row.fields, &skey);
                let new_title = match title {
                    Some(t) => t,
                    None => match cur_title {
                        Some(t) => t,
                        None => {
                            return Err(StoreError::NotFound(id));
                        }
                    },
                };
                let new_url = match url {
                    Some(u) => u,
                    None => match cur_url {
                        Some(u) => u,
                        None => {
                            return Err(StoreError::NotFound(id));
                        }
                    },
                };
                let new_summary = match summary {
                    Some(s) => Some(s),
                    None => cur_summary,
                };
                proof {
                    lemma_updated_fields(fm, opt_view(title), opt_view(url), opt_view(summary));
                    lemma_fields_model_wf(new_title@, new_url@, opt_view(new_summary));
                    assert(fields_model(new_title@, new_url@, opt_view(new_summary)) == updated_fields(fm, opt_view(title), opt_view(url), opt_view(summary)));
                }
                let fields = policy_fields(new_title, new_url, new_summary);
                let res = engine_update_fields(&mut self.eng, &id, fields);
                match res {
                    Ok(()) => {
                        return Ok(());
                    }
                    Err(e) => {
                        return Err(StoreError::StoreWrite(e));
                    }
                }
            }
            i = i + 1;
        }
        Err(StoreError::NotFound(id))
    }

    /// Reads the policy fields of the record for `id`; absence is a
    /// normal outcome, not an error.
    pub fn get(&self, id: String) -> (r: Option<DocFields>)
        requires
            self.wf(),
        ensures
            r is Some <==> self.model().contains_key(id@),
            r is Some ==> doc_matches(self.model()[id@].1, r->Some_0),
    {
        let rows = engine_list(&self.eng);
        let mut i: usize = 0;
        while i < rows.len()
            invariant
                self.wf(),
                0 <= i <= rows@.len(),
                forall|a: int| 0 <= a < rows@.len() ==> store_model(self.eng).contains_key((#[trigger] rows@[a]).id@)
                    && pair_values_present(rows@[a].fields@)
                    && pair_keys_distinct(rows@[a].fields@)
                    && read_fields(rows@[a].fields@) == store_model(self.eng)[rows@[a].id@].1,
                forall|k: Seq<char>| #[trigger] store_model(self.eng).contains_key(k)
                    ==> exists|a: int| 0 <= a < rows@.len() && (#[trigger] rows@[a]).id@ == k,
                forall|a: int| 0 <= a < i ==> (#[trigger] rows@[a]).id@ != id@,
            decreases rows@.len() - i,
        {
            let row = &rows[i];
            if row.id == id {
                return Some(project_fields(&row.fields));
            }
            i = i + 1;
        }
        None
    }

    /// Reads the policy fields of the record for `id`; a name kept for
    /// callers of the earlier read operation.
    pub fn get_metadata(&self, id: String) -> (r: Option<DocFields>)
        requires
            self.wf(),
        ensures
            r is Some <==> self.model().contains_key(id@),
            r is Some ==> doc_matches(self.model()[id@].1, r->Some_0),
    {
        self.get(id)
    }

    /// The number of records the store holds.
    pub fn len(&self) -> (n: usize)
        requires
            self.wf(),
        ensures
            n == self.model().len(),
    {
        engine_count(&self.eng)
    }

    /// Whether the store holds no record at all.
    pub fn is_empty(&self) -> (e: bool)
        requires
            self.wf(),
        ensures
            e == (self.model().len() == 0),
    {
        self.len() == 0
    }
}

} // verus!
