//! Flat documents over named fields, collections of documents, and the
//! check-then-act upsert primitive used to synchronize snapshots into the
//! store.
//!
//! A [`Document`] is a list of fields with pairwise-distinct names; its
//! mathematical value is a finite map from field name to field value. A
//! [`Collection`] is a sequence of documents. [`add_or_update`] performs the
//! insert-if-absent-else-field-merge write that the synchronizer relies on.

use vstd::prelude::*;

verus! {

/// The name of a document field. The store only ever holds the flat
/// snapshot shapes, so the set of field names is closed.
#[derive(Clone, Copy, PartialEq, Eq, Structural, Debug)]
pub enum FieldName {
    Id,
    GuildId,
    Name,
    Icon,
    MemberCount,
    Discriminator,
    Avatar,
    Status,
}

/// The value of a document field: every snapshot field is a string except
/// the member count, an unsigned integer.
#[derive(Clone, Debug, PartialEq)]
pub enum Value {
    Text(String),
    Count(u64),
}

/// The mathematical value of a [`Value`]: text is a sequence of characters.
pub enum SpecValue {
    Text(Seq<char>),
    Count(u64),
}

impl View for Value {
    type V = SpecValue;

    open spec fn view(&self) -> SpecValue {
        match self {
            Value::Text(s) => SpecValue::Text(s@),
            Value::Count(n) => SpecValue::Count(*n),
        }
    }
}

impl Value {
    /// Produces a value equal to this one.
    pub fn dup(&self) -> (r: Value)
        ensures
            r@ == self@,
    {
        match self {
            Value::Text(s) => Value::Text(s.clone()),
            Value::Count(n) => Value::Count(*n),
        }
    }
}

/// Decides whether two field values are equal.
pub fn value_eq(a: &Value, b: &Value) -> (r: bool)
    ensures
        r == (a@ == b@),
{
    match (a, b) {
        (Value::Text(x), Value::Text(y)) => *x == *y,
        (Value::Count(x), Value::Count(y)) => *x == *y,
        _ => false,
    }
}

/// One named field of a document.
#[derive(Clone, Debug, PartialEq)]
pub struct Field {
    pub name: FieldName,
    pub value: Value,
}

/// The map described by a list of fields; on duplicate names the later
/// field wins, though well-formed documents never hold duplicates.
pub open spec fn doc_map(fields: Seq<Field>) -> Map<FieldName, SpecValue>
    decreases fields.len(),
{
    if fields.len() == 0 {
        Map::empty()
    } else {
        doc_map(fields.drop_last()).insert(fields.last().name, fields.last().value@)
    }
}

/// True when no two fields share a name.
pub open spec fn unique_names(fields: Seq<Field>) -> bool {
    forall|i: int, j: int|
        0 <= i < j < fields.len() ==> (#[trigger] fields[i]).name != (#[trigger] fields[j]).name
}

/// A flat document: a list of fields with pairwise-distinct names.
#[derive(Clone, Debug, PartialEq)]
pub struct Document {
    pub fields: Vec<Field>,
}

impl View for Document {
    type V = Map<FieldName, SpecValue>;

    open spec fn view(&self) -> Map<FieldName, SpecValue> {
        doc_map(self.fields@)
    }
}

/// A name occurs in the map of a field list exactly when some field bears it.
pub proof fn lemma_doc_map_domain(fields: Seq<Field>, n: FieldName)
    ensures
        doc_map(fields).contains_key(n) <==> (exists|i: int|
            0 <= i < fields.len() && (#[trigger] fields[i]).name == n),
    decreases fields.len(),
{
    if fields.len() > 0 {
        lemma_doc_map_domain(fields.drop_last(), n);
        if fields.last().name == n {
            assert(fields[fields.len() - 1].name == n);
        } else if doc_map(fields).contains_key(n) {
            let i = choose|i: int|
                0 <= i < fields.drop_last().len() && (#[trigger] fields.drop_last()[i]).name == n;
            assert(fields[i].name == n);
        } else {
            assert forall|i: int| 0 <= i < fields.len() implies (#[trigger] fields[i]).name != n by {
                if i < fields.len() - 1 {
                    assert(fields.drop_last()[i].name != n);
                }
            }
        }
    }
}

/// Under distinct names, the map of a field list sends each field's name to
/// that field's value.
pub proof fn lemma_doc_map_get(fields: Seq<Field>, i: int)
    requires
        unique_names(fields),
        0 <= i < fields.len(),
    ensures
        doc_map(fields).contains_key(fields[i].name),
        doc_map(fields)[fields[i].name] == fields[i].value@,
    decreases fields.len(),
{
    if i == fields.len() - 1 {
        assert(doc_map(fields) == doc_map(fields.drop_last()).insert(
            fields.last().name,
            fields.last().value@,
        ));
    } else {
        assert(unique_names(fields.drop_last()));
        assert(fields.drop_last()[i] == fields[i]);
        lemma_doc_map_get(fields.drop_last(), i);
        assert(fields[i].name != fields.last().name);
    }
}

/// Replacing the value of the field at `i` updates the map at that field's
/// name and nothing else.
pub proof fn lemma_doc_map_update(fields: Seq<Field>, i: int, v: Value)
    requires
        unique_names(fields),
        0 <= i < fields.len(),
    ensures
        doc_map(fields.update(i, Field { name: fields[i].name, value: v })) == doc_map(
            fields,
        ).insert(fields[i].name, v@),
    decreases fields.len(),
{
    let n = fields[i].name;
    let upd = fields.update(i, Field { name: n, value: v });
    if i == fields.len() - 1 {
        assert(upd.drop_last() =~= fields.drop_last());
        assert(doc_map(upd) =~= doc_map(fields).insert(n, v@));
    } else {
        assert(unique_names(fields.drop_last()));
        assert(fields.drop_last()[i] == fields[i]);
        lemma_doc_map_update(fields.drop_last(), i, v);
        assert(upd.drop_last() =~= fields.drop_last().update(
            i,
            Field { name: n, value: v },
        ));
        assert(upd.last() == fields.last());
        assert(fields.last().name != n);
        assert(doc_map(upd) =~= doc_map(fields).insert(n, v@));
    }
}

impl Document {
    /// A document is well formed when no two of its fields share a name.
    pub open spec fn wf(&self) -> bool {
        unique_names(self.fields@)
    }

    /// Produces an empty document.
    pub fn new() -> (d: Document)
        ensures
            d.wf(),
            d@ == Map::<FieldName, SpecValue>::empty(),
    {
        let d = Document { fields: Vec::new() };
        proof {
            assert(d@ =~= Map::<FieldName, SpecValue>::empty());
        }
        d
    }

    /// Finds the index of the field named `name`, if any.
    pub fn find(&self, name: FieldName) -> (r: Option<usize>)
        requires
            self.wf(),
        ensures
            match r {
                Some(i) => {
                    &&& i < self.fields@.len()
                    &&& self.fields@[i as int].name == name
                    &&& self@.contains_key(name)
                    &&& self@[name] == self.fields@[i as int].value@
                },
                None => !self@.contains_key(name),
            },
    {
        let n = self.fields.len();
        let mut i: usize = 0;
        while i < n
            invariant
                self.wf(),
                n == self.fields@.len(),
                i <= n,
                forall|j: int| 0 <= j < i ==> (#[trigger] self.fields@[j]).name != name,
            decreases n - i,
        {
            if self.fields[i].name == name {
                proof {
                    lemma_doc_map_get(self.fields@, i as int);
                }
                return Some(i);
            }
            i = i + 1;
        }
        proof {
            lemma_doc_map_domain(self.fields@, name);
        }
        None
    }

    /// Sets the field named `name` to `value`, replacing it if present and
    /// appending it otherwise.
    pub fn set(&mut self, name: FieldName, value: Value)
        requires
            old(self).wf(),
        ensures
            final(self).wf(),
            final(self)@ == old(self)@.insert(name, value@),
    {
        let found = self.find(name);
        match found {
            Some(i) => {
                proof {
                    lemma_doc_map_update(self.fields@, i as int, value);
                }
                self.fields[i] = Field { name, value };
                proof {
                    assert forall|p: int, q: int|
                        0 <= p < q < self.fields@.len() implies (#[trigger] self.fields@[p]).name
                        != (#[trigger] self.fields@[q]).name by {
                        assert(old(self).fields@[p].name == self.fields@[p].name);
                        assert(old(self).fields@[q].name == self.fields@[q].name);
                    }
                }
            },
            None => {
                self.fields.push(Field { name, value });
                proof {
                    assert(self.fields@.drop_last() =~= old(self).fields@);
                    assert(self@ == old(self)@.insert(name, value@));
                    lemma_doc_map_domain(old(self).fields@, name);
                    assert forall|p: int, q: int|
                        0 <= p < q < self.fields@.len() implies (#[trigger] self.fields@[p]).name
                        != (#[trigger] self.fields@[q]).name by {
                        if q < self.fields@.len() - 1 {
                            assert(old(self).fields@[p].name != old(self).fields@[q].name);
                        } else {
                            assert(old(self).fields@[p].name != name);
                        }
                    }
                }
            },
        }
    }

    /// Decides whether this document matches `filter`: every field of the
    /// filter is present here with an equal value.
    pub fn matches(&self, filter: &Document) -> (r: bool)
        requires
            self.wf(),
            filter.wf(),
    ensures
            r == filter@.submap_of(self@),
    {
        let n = filter.fields.len();
        let mut i: usize = 0;
        while i < n
            invariant
                self.wf(),
                filter.wf(),
                n == filter.fields@.len(),
                i <= n,
                forall|j: int|
                    0 <= j < i ==> {
                        &&& self@.contains_key((#[trigger] filter.fields@[j]).name)
                        &&& self@[filter.fields@[j].name] == filter.fields@[j].value@
                    },
            decreases n - i,
        {
            proof {
                lemma_doc_map_get(filter.fields@, i as int);
            }
            match self.find(filter.fields[i].name) {
                Some(k) => {
                    if !value_eq(&self.fields[k].value, &filter.fields[i].value) {
                        assert(!filter@.submap_of(self@)) by {
                            let fname = filter.fields@[i as int].name;
                            assert(filter@[fname] != self@[fname]);
                        }
                        return false;
                    }
                },
                None => {
                    assert(!filter@.submap_of(self@)) by {
                        let fname = filter.fields@[i as int].name;
                        assert(filter@.contains_key(fname) && !self@.contains_key(fname));
                    }
                    return false;
                },
            }
            i = i + 1;
        }
        proof {
            assert forall|k: FieldName| #[trigger]
                filter@.contains_key(k) implies self@.contains_key(k) && filter@[k] == self@[k] by {
                lemma_doc_map_domain(filter.fields@, k);
                let j = choose|j: int|
                    0 <= j < filter.fields@.len() && (#[trigger] filter.fields@[j]).name == k;
                lemma_doc_map_get(filter.fields@, j);
            }
        }
        true
    }

    /// Sets every field of `record` in this document, leaving other fields
    /// untouched.
    pub fn merge_from(&mut self, record: &Document)
        requires
            old(self).wf(),
            record.wf(),
        ensures
            final(self).wf(),
            final(self)@ == old(self)@.union_prefer_right(record@),
    {
        let n = record.fields.len();
        let mut i: usize = 0;
        proof {
            assert(record.fields@.take(0) =~= Seq::<Field>::empty());
            assert(self@ =~= old(self)@.union_prefer_right(doc_map(record.fields@.take(0))));
        }
        while i < n
            invariant
                self.wf(),
                record.wf(),
                n == record.fields@.len(),
                i <= n,
                self@ == old(self)@.union_prefer_right(doc_map(record.fields@.take(i as int))),
            decreases n - i,
        {
            let f = &record.fields[i];
            self.set(f.name, f.value.dup());
            proof {
                let pfx = record.fields@.take(i as int);
                let pfx1 = record.fields@.take(i as int + 1);
                assert(pfx1.drop_last() =~= pfx);
                assert(pfx1.last() == record.fields@[i as int]);
                assert(doc_map(pfx1) == doc_map(pfx).insert(
                    record.fields@[i as int].name,
                    record.fields@[i as int].value@,
                ));
                assert(self@ =~= old(self)@.union_prefer_right(doc_map(pfx1)));
            }
            i = i + 1;
        }
        proof {
            assert(record.fields@.take(n as int) =~= record.fields@);
        }
    }
}

/// The index of the first document at or after `i` that `filter` matches.
pub open spec fn spec_find_from(
    docs: Seq<Map<FieldName, SpecValue>>,
    filter: Map<FieldName, SpecValue>,
    i: int,
) -> Option<int>
    decreases docs.len() - i,
{
    if i < 0 || i >= docs.len() {
        None
    } else if filter.submap_of(docs[i]) {
        Some(i)
    } else {
        spec_find_from(docs, filter, i + 1)
    }
}

/// The index of the first document that `filter` matches, if any.
pub open spec fn spec_find(
    docs: Seq<Map<FieldName, SpecValue>>,
    filter: Map<FieldName, SpecValue>,
) -> Option<int> {
    spec_find_from(docs, filter, 0)
}

/// What `spec_find_from` returns: the first match at or after `i`, or
/// nothing when no document from `i` on matches.
pub proof fn lemma_spec_find_from_char(
    docs: Seq<Map<FieldName, SpecValue>>,
    filter: Map<FieldName, SpecValue>,
    i: int,
)
    requires
        0 <= i,
    ensures
        match spec_find_from(docs, filter, i) {
            Some(k) => {
                &&& i <= k < docs.len()
                &&& filter.submap_of(docs[k])
                &&& forall|j: int| i <= j < k ==> !filter.submap_of(#[trigger] docs[j])
            },
            None => forall|j: int| i <= j < docs.len() ==> !filter.submap_of(#[trigger] docs[j]),
        },
    decreases docs.len() - i,
{
    if i < docs.len() && !filter.submap_of(docs[i]) {
        lemma_spec_find_from_char(docs, filter, i + 1);
    }
}

/// A match at `k` with no match before it is exactly what `spec_find_from`
/// returns.
pub proof fn lemma_spec_find_from_first(
    docs: Seq<Map<FieldName, SpecValue>>,
    filter: Map<FieldName, SpecValue>,
    i: int,
    k: int,
)
    requires
        0 <= i <= k < docs.len(),
        filter.submap_of(docs[k]),
        forall|j: int| i <= j < k ==> !filter.submap_of(#[trigger] docs[j]),
    ensures
        spec_find_from(docs, filter, i) == Some(k),
    decreases docs.len() - i,
{
    if i < k {
        lemma_spec_find_from_first(docs, filter, i + 1, k);
    }
}

/// The insert-if-absent-else-field-merge write, stated over document maps:
/// whether an insert occurred, and the collection afterwards.
pub open spec fn spec_upsert(
    docs: Seq<Map<FieldName, SpecValue>>,
    filter: Map<FieldName, SpecValue>,
    record: Map<FieldName, SpecValue>,
) -> (bool, Seq<Map<FieldName, SpecValue>>) {
    match spec_find(docs, filter) {
        None => (true, docs.push(record)),
        Some(i) => (false, docs.update(i, docs[i].union_prefer_right(record))),
    }
}

/// A keyed collection of flat documents.
#[derive(Debug, PartialEq)]
pub struct Collection {
    pub docs: Vec<Document>,
}

impl View for Collection {
    type V = Seq<Map<FieldName, SpecValue>>;

    open spec fn view(&self) -> Seq<Map<FieldName, SpecValue>> {
        self.docs@.map_values(|d: Document| d@)
    }
}

impl Collection {
    /// A collection is well formed when each of its documents is.
    pub open spec fn wf(&self) -> bool {
        forall|i: int| 0 <= i < self.docs@.len() ==> (#[trigger] self.docs@[i]).wf()
    }

    /// Produces an empty collection.
    pub fn new() -> (c: Collection)
        ensures
            c.wf(),
            c@ == Seq::<Map<FieldName, SpecValue>>::empty(),
    {
        let c = Collection { docs: Vec::new() };
        proof {
            assert(c@ =~= Seq::<Map<FieldName, SpecValue>>::empty());
        }
        c
    }

    /// Finds the index of the first document matching `filter`, if any.
    pub fn find_one(&self, filter: &Document) -> (r: Option<usize>)
        requires
            self.wf(),
            filter.wf(),
        ensures
            match r {
                Some(i) => spec_find(self@, filter@) == Some(i as int),
                None => spec_find(self@, filter@) is None,
            },
    {
        let n = self.docs.len();
        let mut i: usize = 0;
        while i < n
            invariant
                self.wf(),
                filter.wf(),
                n == self.docs@.len(),
                i <= n,
                spec_find(self@, filter@) == spec_find_from(self@, filter@, i as int),
            decreases n - i,
        {
            if self.docs[i].matches(filter) {
                return Some(i);
            }
            i = i + 1;
        }
        None
    }

    /// Inserts `doc` as a new document at the end of the collection.
    pub fn insert_one(&mut self, doc: Document)
        requires
            old(self).wf(),
            doc.wf(),
        ensures
            final(self).wf(),
            final(self)@ == old(self)@.push(doc@),
    {
        let ghost dv = doc@;
        self.docs.push(doc);
        proof {
            assert(self@ =~= old(self)@.push(dv));
        }
    }

    /// Applies a field-merge update with `record` to the first document
    /// matching `filter`; with no match the collection is unchanged.
    pub fn update_one(&mut self, filter: &Document, record: &Document)
        requires
            old(self).wf(),
            filter.wf(),
            record.wf(),
        ensures
            final(self).wf(),
            match spec_find(old(self)@, filter@) {
                None => final(self)@ == old(self)@,
                Some(i) => final(self)@ == old(self)@.update(
                    i,
                    old(self)@[i].union_prefer_right(record@),
                ),
            },
    {
        let found = self.find_one(filter);
        match found {
            Some(i) => {
                let ghost before = self@;
                proof {
                    lemma_spec_find_from_char(self@, filter@, 0);
                }
                self.docs[i].merge_from(record);
                proof {
                    assert(self@ =~= before.update(
                        i as int,
                        before[i as int].union_prefer_right(record@),
                    ));
                }
            },
            None => {},
        }
    }
}

/// Ensures the store's document for `filter` matches `record`: inserts the
/// record when no document matches the filter and reports `true`, else
/// applies a field-merge update to the first matching document and reports
/// `false`. The existence check and the write are two sequential steps, not
/// one atomic operation; events for one guild are expected to be processed
/// serially, so no two such writes race on the same filter.
pub fn add_or_update(col: &mut Collection, filter: Document, record: Document) -> (added: bool)
    requires
        old(col).wf(),
        filter.wf(),
        record.wf(),
    ensures
        final(col).wf(),
        added == spec_upsert(old(col)@, filter@, record@).0,
        final(col)@ == spec_upsert(old(col)@, filter@, record@).1,
{
    let check = col.find_one(&filter);
    if check.is_none() {
        col.insert_one(record);
        true
    } else {
        col.update_one(&filter, &record);
        false
    }
}

/// Upserting is idempotent: when the record carries the filter's fields,
/// writing the same record twice in a row produces at most one insert — the
/// second write reports no insert and leaves every document unchanged.
pub proof fn lemma_upsert_idempotent(
    docs: Seq<Map<FieldName, SpecValue>>,
    filter: Map<FieldName, SpecValue>,
    record: Map<FieldName, SpecValue>,
)
    requires
        filter.submap_of(record),
    ensures
        ({
            let once = spec_upsert(docs, filter, record).1;
            let again = spec_upsert(once, filter, record);
            !again.0 && again.1 == once
        }),
{
    lemma_spec_find_from_char(docs, filter, 0);
    match spec_find(docs, filter) {
        None => {
            let once = docs.push(record);
            assert(filter.submap_of(once[docs.len() as int]));
            lemma_spec_find_from_first(once, filter, 0, docs.len() as int);
            assert(record.union_prefer_right(record) =~= record);
            assert(spec_upsert(once, filter, record).1 =~= once);
        },
        Some(i) => {
            let merged = docs[i].union_prefer_right(record);
            let once = docs.update(i, merged);
            assert(filter.submap_of(merged));
            lemma_spec_find_from_first(once, filter, 0, i);
            assert(merged.union_prefer_right(record) =~= merged);
            assert(spec_upsert(once, filter, record).1 =~= once);
        },
    }
}

} // verus!
