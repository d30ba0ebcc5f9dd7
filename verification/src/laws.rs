//! The store's general laws, stated over the same model its contracts
//! use and proved once and for all.

use vstd::prelude::*;
use crate::facade::{fields_model, updated_fields, doc_fields_wf};

verus! {

/// Storing a record and then reading the same identifier yields exactly
/// the derived fields that were stored: title, url and, when given,
/// summary.  No other field exists -- in particular the record holds no
/// content field, and no value beyond the derived ones survives the
/// write, whatever the raw content was.
pub proof fn lemma_set_then_get(
    m: Map<Seq<char>, (Seq<u32>, Map<Seq<char>, Seq<char>>)>,
    id: Seq<char>,
    bits: Seq<u32>,
    t: Seq<char>,
    u: Seq<char>,
    s: Option<Seq<char>>,
)
    ensures
        m.insert(id, (bits, fields_model(t, u, s))).contains_key(id),
        m.insert(id, (bits, fields_model(t, u, s)))[id] == (bits, fields_model(t, u, s)),
        fields_model(t, u, s)["title"@] == t,
        fields_model(t, u, s)["url"@] == u,
        s is Some ==> fields_model(t, u, s)["summary"@] == s->Some_0,
        s is None ==> !fields_model(t, u, s).contains_key("summary"@),
        !fields_model(t, u, s).contains_key("content"@),
        forall|k: Seq<char>| #[trigger] fields_model(t, u, s).contains_key(k)
            ==> k == "title"@ || k == "url"@ || (s is Some && k == "summary"@),
        forall|k: Seq<char>| #[trigger] fields_model(t, u, s).contains_key(k)
            ==> fields_model(t, u, s)[k] == t || fields_model(t, u, s)[k] == u
                || (s is Some && fields_model(t, u, s)[k] == s->Some_0),
{
    reveal_strlit("title");
    reveal_strlit("url");
    reveal_strlit("summary");
    reveal_strlit("content");
    assert("title"@.len() == 5 && "url"@.len() == 3 && "summary"@.len() == 7 && "content"@.len() == 7);
    assert("content"@[0] == 'c' && "summary"@[0] == 's');
    assert("title"@ != "url"@ && "title"@ != "summary"@ && "url"@ != "summary"@);
    assert("content"@ != "title"@ && "content"@ != "url"@ && "content"@ != "summary"@);
}

/// Writing the same identifier twice leaves exactly one record for it,
/// holding the second write's data: an upsert replaces, it never
/// duplicates, and every other record is untouched.
pub proof fn lemma_set_twice(
    m: Map<Seq<char>, (Seq<u32>, Map<Seq<char>, Seq<char>>)>,
    id: Seq<char>,
    first: (Seq<u32>, Map<Seq<char>, Seq<char>>),
    second: (Seq<u32>, Map<Seq<char>, Seq<char>>),
)
    ensures
        m.insert(id, first).insert(id, second) == m.insert(id, second),
        m.insert(id, first).insert(id, second)[id] == second,
        m.insert(id, first).insert(id, second).len() == m.insert(id, second).len(),
        forall|k: Seq<char>| k != id ==> m.insert(id, first).insert(id, second).contains_key(k) == #[trigger] m.contains_key(k),
{
    assert(m.insert(id, first).insert(id, second) =~= m.insert(id, second));
}

/// Removing an identifier that holds no record changes nothing: the map
/// of records, and with it the count, stays exactly as it was.
pub proof fn lemma_remove_absent(
    m: Map<Seq<char>, (Seq<u32>, Map<Seq<char>, Seq<char>>)>,
    id: Seq<char>,
)
    requires
        !m.contains_key(id),
    ensures
        m.remove(id) == m,
        m.remove(id).len() == m.len(),
{
    assert(m.remove(id) =~= m);
}

/// A partial update that gives only a title changes only the title
/// field: the url and summary fields, and hence everything else about
/// the record, keep their prior values.
pub proof fn lemma_update_title_only(m: Map<Seq<char>, Seq<char>>, new_title: Seq<char>)
    requires
        doc_fields_wf(m),
    ensures
        updated_fields(m, Some(new_title), None, None) == m.insert("title"@, new_title),
        updated_fields(m, Some(new_title), None, None)["title"@] == new_title,
        updated_fields(m, Some(new_title), None, None)["url"@] == m["url"@],
        updated_fields(m, Some(new_title), None, None).contains_key("summary"@) == m.contains_key("summary"@),
        m.contains_key("summary"@) ==> updated_fields(m, Some(new_title), None, None)["summary"@] == m["summary"@],
{
    reveal_strlit("title");
    reveal_strlit("url");
    reveal_strlit("summary");
    assert("title"@.len() == 5 && "url"@.len() == 3 && "summary"@.len() == 7);
    assert("title"@ != "url"@ && "title"@ != "summary"@ && "url"@ != "summary"@);
}

} // verus!
