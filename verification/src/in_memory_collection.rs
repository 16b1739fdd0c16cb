//! An in-memory collection of JSON items keyed by their identifiers, as the
//! REST routes serve it.

use vstd::prelude::*;

use crate::id_manager::{id_text, IdManager, IdType, IdValue};
use crate::json_value::{
    field_index, field_value, fields_view, fields_with, find_field, get_id_field, id_field,
    file_content_of, lemma_field_index, merge_json_values, merged, parsed_json, set_field,
    with_field, IdField, IdFieldValue, Json, JsonView,
};
use crate::text::{chars_of, decimal, decimal_chars, push_all, push_str, string_of};

verus! {

/// Items keyed by identifier, in the order they were first stored.
pub type Entries = Seq<(Seq<char>, JsonView)>;

/// No identifier occurs twice.
pub open spec fn unique_keys(e: Entries) -> bool {
    forall|i: int, j: int| 0 <= i < j < e.len() ==> e[i].0 != e[j].0
}

/// The items of the entries, in order.
pub open spec fn items_of(e: Entries) -> Seq<JsonView> {
    Seq::new(e.len(), |i: int| e[i].1)
}

/// Storing an item under an identifier and reading that identifier back gives
/// the item; every other identifier reads as before.
pub proof fn lemma_put_then_get(e: Entries, id: Seq<char>, item: JsonView, other: Seq<char>)
    requires
        unique_keys(e),
    ensures
        unique_keys(fields_with(e, id, item)),
        field_value(fields_with(e, id, item), id) == Some(item),
        other != id ==> field_value(fields_with(e, id, item), other) == field_value(e, other),
        fields_with(e, id, item).len() == e.len() + (if field_index(e, id) is Some {
            0int
        } else {
            1int
        }),
{
    let f = fields_with(e, id, item);
    lemma_field_index(e, id);
    lemma_field_index(e, other);
    lemma_field_index(f, id);
    lemma_field_index(f, other);
    match field_index(e, id) {
        Some(i) => {
            assert(f[i].0 == id);
            assert(forall|j: int| 0 <= j < f.len() && j != i ==> f[j] == e[j]);
        },
        None => {
            assert(f[e.len() as int].0 == id);
            assert(forall|j: int| 0 <= j < e.len() ==> f[j] == e[j]);
        },
    }
}

/// Removing the entry of an identifier leaves it unread, and every other
/// identifier reads as before.
pub proof fn lemma_remove_then_get(e: Entries, i: int, other: Seq<char>)
    requires
        unique_keys(e),
        0 <= i < e.len(),
    ensures
        unique_keys(e.remove(i)),
        field_value(e.remove(i), e[i].0) is None,
        other != e[i].0 ==> field_value(e.remove(i), other) == field_value(e, other),
{
    let r = e.remove(i);
    lemma_field_index(r, e[i].0);
    lemma_field_index(r, other);
    lemma_field_index(e, other);
    assert(forall|j: int| 0 <= j < r.len() ==> r[j] == if j < i {
        e[j]
    } else {
        e[j + 1]
    });
    if other != e[i].0 {
        match field_index(e, other) {
            Some(j) => {
                let jr = if j < i {
                    j
                } else {
                    j - 1
                };
                assert(r[jr] == e[j]);
                match field_index(r, other) {
                    Some(x) => {
                        if x < jr {
                            let y = if x < i {
                                x
                            } else {
                                x + 1
                            };
                            assert(r[x] == e[y]);
                        }
                        assert(x == jr);
                    },
                    None => {
                        assert(r[jr].0 == other);
                    },
                }
            },
            None => {
                match field_index(r, other) {
                    Some(x) => {
                        let y = if x < i {
                            x
                        } else {
                            x + 1
                        };
                        assert(r[x] == e[y]);
                    },
                    None => {},
                }
            },
        }
    }
}

/// The identifier an item of a batch is stored under, if any: a string id for
/// UUID collections, a number id for integer collections, either for
/// collections without generated ids.
pub open spec fn batch_id(item: JsonView, id_type: IdType, key: Seq<char>) -> Option<Seq<char>> {
    match (id_type, id_field(item, key)) {
        (IdType::Uuid, IdField::Text(s)) => Some(s),
        (IdType::Int, IdField::Number(t, _)) => Some(t),
        (IdType::NoId, IdField::Text(s)) => Some(s),
        (IdType::NoId, IdField::Number(t, _)) => Some(t),
        _ => None,
    }
}

/// The entries after a batch of items is stored, in order.
pub open spec fn batch_entries(e: Entries, items: Seq<JsonView>, id_type: IdType, key: Seq<char>) -> Entries
    decreases items.len(),
{
    if items.len() == 0 {
        e
    } else {
        let prev = batch_entries(e, items.drop_last(), id_type, key);
        match batch_id(items.last(), id_type, key) {
            Some(id) => fields_with(prev, id, items.last()),
            None => prev,
        }
    }
}

/// The items of a batch that are stored, in order.
pub open spec fn batch_added(items: Seq<JsonView>, id_type: IdType, key: Seq<char>) -> Seq<JsonView>
    decreases items.len(),
{
    if items.len() == 0 {
        Seq::empty()
    } else {
        let prev = batch_added(items.drop_last(), id_type, key);
        if batch_id(items.last(), id_type, key) is Some {
            prev.push(items.last())
        } else {
            prev
        }
    }
}

/// The largest number id of a batch, for integer collections.
pub open spec fn batch_max(items: Seq<JsonView>, id_type: IdType, key: Seq<char>) -> Option<u64>
    decreases items.len(),
{
    if items.len() == 0 {
        None
    } else {
        let prev = batch_max(items.drop_last(), id_type, key);
        match (id_type, id_field(items.last(), key)) {
            (IdType::Int, IdField::Number(_, u)) => match prev {
                Some(m) => match u {
                    Some(v) => Some(if m < v {
                        v
                    } else {
                        m
                    }),
                    None => Some(m),
                },
                None => u,
            },
            _ => prev,
        }
    }
}

/// Whether a batch holds, for an integer collection, a number id that is not
/// a `u64` after one that is (the store cannot compare it with the largest).
pub open spec fn batch_unreadable(items: Seq<JsonView>, id_type: IdType, key: Seq<char>) -> bool
    decreases items.len(),
{
    if items.len() == 0 {
        false
    } else {
        batch_unreadable(items.drop_last(), id_type, key) || (id_type == IdType::Int
            && batch_max(items.drop_last(), id_type, key) is Some && id_field(
            items.last(),
            key,
        ) matches IdField::Number(_, None))
    }
}

/// `b` and the answer `r` after `item` is added to `a`: when the collection
/// makes identifiers, the next one is written into the item under the id
/// field and the item is stored under it; otherwise the item is stored under
/// its own string or number id, or refused without one.
pub open spec fn add_outcome(
    a: InMemoryCollection,
    b: InMemoryCollection,
    item: JsonView,
    r: Option<JsonView>,
) -> bool {
    if a.id_type() != IdType::NoId || a.last_id() is Some {
        b.last_id() matches Some(v) && {
            let stored = with_field(item, a.key(), JsonView::Str(id_text(v)));
            &&& r == Some(stored)
            &&& b.entries() == fields_with(a.entries(), id_text(v), stored)
        }
    } else {
        &&& b.last_id() is None
        &&& match id_field(item, a.key()) {
            IdField::Text(s) => r == Some(item) && b.entries() == fields_with(a.entries(), s, item),
            IdField::Number(t, _) => r == Some(item) && b.entries() == fields_with(
                a.entries(),
                t,
                item,
            ),
            IdField::Absent => r is None && b.entries() == a.entries(),
        }
    }
}

/// What came of reading and parsing a data file.
pub enum FileContent {
    /// The file could not be read.
    Unreadable,
    /// The file is not valid JSON.
    InvalidJson,
    /// The file's JSON.
    Parsed(Json),
}

/// A data file as plain values: `None` when it could not be read,
/// `Some(None)` when it is not JSON, else its JSON.
pub open spec fn content_view(c: FileContent) -> Option<Option<JsonView>> {
    match c {
        FileContent::Unreadable => None,
        FileContent::InvalidJson => Some(None),
        FileContent::Parsed(j) => Some(Some(j@)),
    }
}

/// A data file given by its text (`None` when it could not be read), read as
/// JSON.
pub open spec fn text_content(text: Option<Seq<char>>) -> Option<Option<JsonView>> {
    match text {
        None => None,
        Some(t) => Some(parsed_json(t)),
    }
}

/// The plain text of an optional text.
pub open spec fn opt_text(text: Option<&str>) -> Option<Seq<char>> {
    match text {
        Some(t) => Some(t@),
        None => None,
    }
}

/// Whether loading a data file would meet, in an integer collection, a number
/// id it cannot compare with the largest one so far.
pub open spec fn content_unloadable(c: Option<Option<JsonView>>, id_type: IdType, key: Seq<char>) -> bool {
    c matches Some(Some(JsonView::Array(a))) && batch_unreadable(a, id_type, key)
}

/// `b` and the answer `r` after the data file `file_path` with content `c` is
/// loaded into `a` as initial data: the objects of an array are stored as by
/// [`InMemoryCollection::add_batch`] and the message counts them; an
/// unreadable file, a file that is not JSON and a root that is not an array
/// store nothing and give a warning naming the file.
pub open spec fn initial_data_loaded(
    a: InMemoryCollection,
    b: InMemoryCollection,
    file_path: Seq<char>,
    c: Option<Option<JsonView>>,
    r: Result<String, String>,
) -> bool {
    match c {
        Some(Some(JsonView::Array(arr))) => {
            let t = a.id_type();
            let key = a.key();
            &&& r matches Ok(m) && m@ == "✔️ Loaded "@ + decimal(batch_added(arr, t, key).len())
                + " initial items from "@ + file_path
            &&& b.entries() == batch_entries(a.entries(), arr, t, key)
            &&& b.last_id() == match batch_max(arr, t, key) {
                Some(v) => Some(IdValue::Int(v)),
                None => a.last_id(),
            }
        },
        _ => {
            &&& b.entries() == a.entries()
            &&& b.last_id() == a.last_id()
            &&& match c {
                None => r matches Err(m) && m@ == "⚠️ Could not read file "@ + file_path
                    + ", skipping initial data load"@,
                Some(None) => r matches Err(m) && m@ == "⚠️ File "@ + file_path
                    + " does not contain valid JSON, skipping initial data load"@,
                Some(Some(_)) => r matches Err(m) && m@ == "⚠️ File "@ + file_path
                    + " does not contain a JSON array, skipping initial data load"@,
            }
        },
    }
}

/// Whether a batch can be stored: see [`batch_unreadable`].
pub fn batch_readable(items: &Vec<Json>, id_type: IdType, key: &str) -> (r: bool)
    ensures
        r == !batch_unreadable(items@.map_values(|j: Json| j@), id_type, key@),
{
    let ghost a = items@.map_values(|j: Json| j@);
    let mut max_id: Option<u64> = None;
    let mut bad = false;
    let mut k: usize = 0;
    while k < items.len()
        invariant
            k <= items.len(),
            a == items@.map_values(|j: Json| j@),
            max_id == batch_max(a.take(k as int), id_type, key@),
            bad == batch_unreadable(a.take(k as int), id_type, key@),
        decreases items.len() - k,
    {
        let ghost prefix = a.take(k + 1);
        assert(prefix.drop_last() =~= a.take(k as int));
        assert(prefix.last() == items@[k as int]@);
        if id_type == IdType::Int {
            match get_id_field(&items[k], key) {
                IdFieldValue::Number(_, u) => match max_id {
                    Some(current) => match u {
                        Some(v) => {
                            if current < v {
                                max_id = Some(v);
                            }
                        },
                        None => {
                            bad = true;
                        },
                    },
                    None => {
                        max_id = u;
                    },
                },
                _ => {},
            }
        }
        k += 1;
    }
    assert(a.take(items.len() as int) =~= a);
    !bad
}

/// An in-memory collection of JSON items.
pub struct InMemoryCollection {
    db: Vec<(String, Json)>,
    id_manager: IdManager,
    id_key: String,
    name: Option<String>,
}

impl InMemoryCollection {
    /// The stored items, keyed by identifier.
    pub closed spec fn entries(&self) -> Entries {
        fields_view(self.db@)
    }

    /// The identifier strategy.
    pub closed spec fn id_type(&self) -> IdType {
        self.id_manager.id_type
    }

    /// The last identifier handed out or set.
    pub closed spec fn last_id(&self) -> Option<IdValue> {
        self.id_manager.current
    }

    /// The field that holds an item's identifier.
    pub closed spec fn key(&self) -> Seq<char> {
        self.id_key@
    }

    /// The collection name.
    pub closed spec fn label(&self) -> Option<String> {
        self.name
    }

    /// The collection is well formed: no identifier occurs twice, and the last
    /// identifier is of the collection's kind.
    pub open spec fn wf(&self) -> bool {
        &&& unique_keys(self.entries())
        &&& match self.last_id() {
            Some(IdValue::Int(_)) => self.id_type() == IdType::Int,
            Some(IdValue::Uuid(_)) => self.id_type() == IdType::Uuid,
            None => true,
        }
    }

    /// An empty collection.
    pub fn new(id_type: IdType, id_key: String, name: Option<String>) -> (c: Self)
        ensures
            c.wf(),
            c.entries().len() == 0,
            c.id_type() == id_type,
            c.last_id().is_none(),
            c.key() == id_key@,
            c.label() == name,
    {
        let c = InMemoryCollection { db: Vec::new(), id_manager: IdManager::new(id_type), id_key, name };
        assert(c.entries() =~= Seq::<(Seq<char>, JsonView)>::empty());
        c
    }

    /// The field that holds an item's identifier.
    pub fn id_key(&self) -> (k: &String)
        ensures
            k@ == self.key(),
    {
        &self.id_key
    }

    /// The collection name.
    pub fn name(&self) -> (n: &Option<String>)
        ensures
            *n == self.label(),
    {
        &self.name
    }

    /// Every item, in storage order.
    pub fn get_all(&self) -> (items: Vec<Json>)
        ensures
            items@.map_values(|j: Json| j@) == items_of(self.entries()),
    {
        let mut out: Vec<Json> = Vec::new();
        let mut k: usize = 0;
        while k < self.db.len()
            invariant
                k <= self.db.len(),
                out.len() == k,
                forall|j: int| 0 <= j < k ==> #[trigger] out@[j]@ == self.entries()[j].1,
            decreases self.db.len() - k,
        {
            out.push(self.db[k].1.duplicate());
            k += 1;
        }
        assert(out@.map_values(|j: Json| j@) =~= items_of(self.entries()));
        out
    }

    /// At most `limit` items, skipping the first `offset`, in storage order.
    pub fn get_paginated(&self, offset: usize, limit: usize) -> (items: Vec<Json>)
        ensures
            items@.map_values(|j: Json| j@) == items_of(self.entries()).subrange(
                if offset < self.entries().len() {
                    offset as int
                } else {
                    self.entries().len() as int
                },
                if offset < self.entries().len() && limit < self.entries().len() - offset {
                    offset + limit
                } else {
                    self.entries().len() as int
                },
            ),
    {
        let n = self.db.len();
        let start = if offset < n {
            offset
        } else {
            n
        };
        let end = if offset < n && limit < n - offset {
            offset + limit
        } else {
            n
        };
        let mut out: Vec<Json> = Vec::new();
        let mut k: usize = start;
        while k < end
            invariant
                start <= k <= end <= n,
                n == self.db.len(),
                out.len() == k - start,
                forall|j: int| 0 <= j < out.len() ==> #[trigger] out@[j]@ == self.entries()[start + j].1,
            decreases end - k,
        {
            out.push(self.db[k].1.duplicate());
            k += 1;
        }
        assert(out@.map_values(|j: Json| j@) =~= items_of(self.entries()).subrange(
            start as int,
            end as int,
        ));
        out
    }

    /// The item stored under `id`, if any.
    pub fn get(&self, id: &str) -> (r: Option<Json>)
        ensures
            match r {
                Some(item) => field_value(self.entries(), id@) == Some(item@),
                None => field_value(self.entries(), id@) is None,
            },
    {
        match find_field(&self.db, id) {
            Some(i) => Some(self.db[i].1.duplicate()),
            None => None,
        }
    }

    /// Whether an item is stored under `id`.
    pub fn contains_id(&self, id: &str) -> (r: bool)
        ensures
            r == (field_index(self.entries(), id@) is Some),
    {
        find_field(&self.db, id).is_some()
    }

    /// The number of stored items.
    pub fn count(&self) -> (n: usize)
        ensures
            n == self.entries().len(),
    {
        self.db.len()
    }

    fn put(&mut self, id: String, item: Json)
        requires
            old(self).wf(),
        ensures
            final(self).wf(),
            final(self).entries() == fields_with(old(self).entries(), id@, item@),
            final(self).id_manager == old(self).id_manager,
            final(self).id_key == old(self).id_key,
            final(self).label() == old(self).label(),
    {
        let ghost before = self.entries();
        proof {
            lemma_put_then_get(before, id@, item@, id@);
        }
        match find_field(&self.db, id.as_str()) {
            Some(i) => {
                self.db.set(i, (id, item));
                assert(self.entries() =~= fields_with(before, id@, item@));
            },
            None => {
                self.db.push((id, item));
                assert(self.entries() =~= fields_with(before, id@, item@));
            },
        }
    }

    /// Stores a new item. The collection's next identifier, when it makes one,
    /// is written into the item under the id field as a string; a collection
    /// without generated ids takes the item's own string or number id, and
    /// refuses an item without one. Returns the stored item.
    pub fn add(&mut self, item: Json) -> (r: Option<Json>)
        requires
            old(self).wf(),
        ensures
            final(self).wf(),
            final(self).id_type() == old(self).id_type(),
            final(self).key() == old(self).key(),
            final(self).label() == old(self).label(),
            add_outcome(
                *old(self),
                *final(self),
                item@,
                match r {
                    Some(x) => Some(x@),
                    None => None,
                },
            ),
            old(self).id_type() == IdType::Int ==> final(self).last_id() == Some(
                match old(self).last_id() {
                    Some(IdValue::Int(n)) => IdValue::Int(crate::id_manager::next_int(n)),
                    _ => IdValue::Int(1),
                },
            ),
    {
        let next = self.id_manager.next();
        match next {
            Some(id_value) => {
                let id = id_value.to_string();
                let stored = set_field(item, self.id_key.as_str(), Json::Str(id.clone()));
                let copy = stored.duplicate();
                self.put(id, stored);
                Some(copy)
            },
            None => {
                let id = match get_id_field(&item, self.id_key.as_str()) {
                    IdFieldValue::Text(s) => s,
                    IdFieldValue::Number(t, _) => t,
                    IdFieldValue::Absent => {
                        return None;
                    },
                };
                let copy = item.duplicate();
                self.put(id, item);
                Some(copy)
            },
        }
    }

    /// Stores the objects of an array that carry an identifier of the
    /// collection's kind, in order, and returns them; anything but an array
    /// stores nothing. An integer collection then continues after the largest
    /// number id of the batch.
    pub fn add_batch(&mut self, items: Json) -> (added: Vec<Json>)
        requires
            old(self).wf(),
            items@ matches JsonView::Array(a) ==> !batch_unreadable(a, old(self).id_type(), old(self).key()),
        ensures
            final(self).wf(),
            final(self).id_type() == old(self).id_type(),
            final(self).key() == old(self).key(),
            final(self).label() == old(self).label(),
            match items@ {
                JsonView::Array(a) => {
                    let t = old(self).id_type();
                    let key = old(self).key();
                    &&& final(self).entries() == batch_entries(old(self).entries(), a, t, key)
                    &&& added@.map_values(|j: Json| j@) == batch_added(a, t, key)
                    &&& final(self).last_id() == match batch_max(a, t, key) {
                        Some(v) => Some(IdValue::Int(v)),
                        None => old(self).last_id(),
                    }
                },
                _ => final(self).entries() == old(self).entries() && added.len() == 0
                    && final(self).last_id() == old(self).last_id(),
            },
    {
        let mut added: Vec<Json> = Vec::new();
        let arr = match items {
            Json::Array(arr) => arr,
            _ => {
                return added;
            },
        };
        let ghost a = Seq::new(arr.len() as nat, |i: int| arr@[i]@);
        assert(items@ == JsonView::Array(a)) by {
            if let JsonView::Array(x) = items@ {
                assert(x =~= a);
            }
        }
        let ghost e0 = self.entries();
        let ghost t = self.id_type();
        let ghost key = self.key();
        let mut max_id: Option<u64> = None;
        let mut k: usize = 0;
        while k < arr.len()
            invariant
                k <= arr.len(),
                a.len() == arr.len(),
                forall|i: int| 0 <= i < a.len() ==> a[i] == arr@[i]@,
                !batch_unreadable(a, t, key),
                self.wf(),
                t == self.id_type(),
                key == self.key(),
                self.id_manager == old(self).id_manager,
                self.name == old(self).name,
                self.id_key == old(self).id_key,
                self.entries() == batch_entries(e0, a.take(k as int), t, key),
                added@.map_values(|j: Json| j@) == batch_added(a.take(k as int), t, key),
                max_id == batch_max(a.take(k as int), t, key),
                max_id is Some ==> t == IdType::Int,
            decreases arr.len() - k,
        {
            let ghost prefix = a.take(k + 1);
            assert(prefix.drop_last() =~= a.take(k as int));
            assert(prefix.last() == arr@[k as int]@);
            proof {
                lemma_unreadable_prefix(a, k as int + 1, t, key);
            }
            let field = get_id_field(&arr[k], self.id_key.as_str());
            let id: Option<String> = match self.id_manager.id_type {
                IdType::Uuid => match field {
                    IdFieldValue::Text(s) => Some(s),
                    _ => None,
                },
                IdType::Int => match field {
                    IdFieldValue::Number(t, u) => {
                        match max_id {
                            Some(current) => {
                                let v = match u {
                                    Some(v) => v,
                                    None => current,
                                };
                                if current < v {
                                    max_id = Some(v);
                                }
                            },
                            None => {
                                max_id = u;
                            },
                        }
                        Some(t)
                    },
                    _ => None,
                },
                IdType::NoId => match field {
                    IdFieldValue::Text(s) => Some(s),
                    IdFieldValue::Number(t, _) => Some(t),
                    IdFieldValue::Absent => None,
                },
            };
            let ghost before_added = added@.map_values(|j: Json| j@);
            match id {
                Some(id) => {
                    let item = arr[k].duplicate();
                    self.put(id, item);
                    added.push(arr[k].duplicate());
                    assert(added@.map_values(|j: Json| j@) =~= before_added.push(arr@[k as int]@));
                },
                None => {},
            }
            k += 1;
        }
        assert(a.take(arr.len() as int) =~= a);
        match max_id {
            Some(v) => {
                let _ = self.id_manager.set_current(IdValue::Int(v));
            },
            None => {},
        }
        added
    }

    /// Replaces the item stored under `id`, if any, with `item` carrying `id`
    /// in its id field; returns the stored item.
    pub fn update(&mut self, id: &str, item: Json) -> (r: Option<Json>)
        requires
            old(self).wf(),
        ensures
            final(self).wf(),
            final(self).id_type() == old(self).id_type(),
            final(self).last_id() == old(self).last_id(),
            final(self).key() == old(self).key(),
            final(self).label() == old(self).label(),
            match field_index(old(self).entries(), id@) {
                Some(_) => {
                    let stored = with_field(item@, old(self).key(), JsonView::Str(id@));
                    &&& r matches Some(s) && s@ == stored
                    &&& final(self).entries() == fields_with(old(self).entries(), id@, stored)
                },
                None => r is None && final(self).entries() == old(self).entries(),
            },
    {
        let stored = set_field(item, self.id_key.as_str(), Json::Str(id.to_string()));
        if find_field(&self.db, id).is_some() {
            let copy = stored.duplicate();
            self.put(id.to_string(), stored);
            Some(copy)
        } else {
            None
        }
    }

    /// Merges `partial` into the item stored under `id`, if any, keeps `id` in
    /// its id field, and returns the stored item.
    pub fn update_partial(&mut self, id: &str, partial: Json) -> (r: Option<Json>)
        requires
            old(self).wf(),
        ensures
            final(self).wf(),
            final(self).id_type() == old(self).id_type(),
            final(self).last_id() == old(self).last_id(),
            final(self).key() == old(self).key(),
            final(self).label() == old(self).label(),
            match field_value(old(self).entries(), id@) {
                Some(existing) => {
                    let stored = with_field(
                        merged(existing, partial@),
                        old(self).key(),
                        JsonView::Str(id@),
                    );
                    &&& r matches Some(s) && s@ == stored
                    &&& final(self).entries() == fields_with(old(self).entries(), id@, stored)
                },
                None => r is None && final(self).entries() == old(self).entries(),
            },
    {
        match find_field(&self.db, id) {
            Some(i) => {
                let existing = self.db[i].1.duplicate();
                let updated = merge_json_values(existing, partial);
                let stored = set_field(updated, self.id_key.as_str(), Json::Str(id.to_string()));
                let copy = stored.duplicate();
                self.put(id.to_string(), stored);
                Some(copy)
            },
            None => None,
        }
    }

    /// Removes and returns the item stored under `id`, if any.
    pub fn delete(&mut self, id: &str) -> (r: Option<Json>)
        requires
            old(self).wf(),
        ensures
            final(self).wf(),
            final(self).id_type() == old(self).id_type(),
            final(self).last_id() == old(self).last_id(),
            final(self).key() == old(self).key(),
            final(self).label() == old(self).label(),
            match field_index(old(self).entries(), id@) {
                Some(i) => r matches Some(item) && item@ == old(self).entries()[i].1
                    && final(self).entries() == old(self).entries().remove(i),
                None => r is None && final(self).entries() == old(self).entries(),
            },
    {
        match find_field(&self.db, id) {
            Some(i) => {
                let ghost before = self.entries();
                let (_, item) = self.db.remove(i);
                assert(self.entries() =~= before.remove(i as int));
                proof {
                    lemma_remove_then_get(before, i as int, id@);
                }
                Some(item)
            },
            None => None,
        }
    }

    /// Removes every item and returns how many there were.
    pub fn clear(&mut self) -> (n: usize)
        requires
            old(self).wf(),
        ensures
            n == old(self).entries().len(),
            final(self).entries().len() == 0,
            final(self).wf(),
            final(self).id_type() == old(self).id_type(),
            final(self).last_id() == old(self).last_id(),
            final(self).key() == old(self).key(),
            final(self).label() == old(self).label(),
    {
        let n = self.db.len();
        self.db = Vec::new();
        assert(self.entries() =~= Seq::<(Seq<char>, JsonView)>::empty());
        n
    }

    /// Loads the content of the data file `file_path` as initial data (see
    /// [`initial_data_loaded`]).
    pub fn load_initial_data_content(&mut self, file_path: &str, content: FileContent) -> (r: Result<
        String,
        String,
    >)
        requires
            old(self).wf(),
            !content_unloadable(content_view(content), old(self).id_type(), old(self).key()),
        ensures
            final(self).wf(),
            final(self).id_type() == old(self).id_type(),
            final(self).key() == old(self).key(),
            final(self).label() == old(self).label(),
            initial_data_loaded(*old(self), *final(self), file_path@, content_view(content), r),
    {
        proof {
            reveal_strlit("⚠️ Could not read file ");
            reveal_strlit(", skipping initial data load");
            reveal_strlit("⚠️ File ");
            reveal_strlit(" does not contain valid JSON, skipping initial data load");
            reveal_strlit(" does not contain a JSON array, skipping initial data load");
            reveal_strlit("✔️ Loaded ");
            reveal_strlit(" initial items from ");
        }
        match content {
            FileContent::Unreadable => {
                let mut m = chars_of("⚠️ Could not read file ");
                push_str(&mut m, file_path);
                push_str(&mut m, ", skipping initial data load");
                Err(string_of(&m))
            },
            FileContent::InvalidJson => {
                let mut m = chars_of("⚠️ File ");
                push_str(&mut m, file_path);
                push_str(&mut m, " does not contain valid JSON, skipping initial data load");
                Err(string_of(&m))
            },
            FileContent::Parsed(j) => match j {
                Json::Array(_) => {
                    let added = self.add_batch(j);
                    let mut m = chars_of("✔️ Loaded ");
                    let n = decimal_chars(added.len() as u64);
                    push_all(&mut m, &n);
                    push_str(&mut m, " initial items from ");
                    push_str(&mut m, file_path);
                    Ok(string_of(&m))
                },
                _ => {
                    let mut m = chars_of("⚠️ File ");
                    push_str(&mut m, file_path);
                    push_str(&mut m, " does not contain a JSON array, skipping initial data load");
                    Err(string_of(&m))
                },
            },
        }
    }

    /// Loads the data file `file_path` as initial data from its text (`None`
    /// when it could not be read), read as JSON here; `None`, with nothing
    /// stored, where an integer collection would meet a number id it cannot
    /// compare with the largest one so far.
    pub fn load_initial_data(&mut self, file_path: &str, text: Option<&str>) -> (r: Option<
        Result<String, String>,
    >)
        requires
            old(self).wf(),
        ensures
            final(self).wf(),
            final(self).id_type() == old(self).id_type(),
            final(self).key() == old(self).key(),
            final(self).label() == old(self).label(),
            r is None <==> content_unloadable(
                text_content(opt_text(text)),
                old(self).id_type(),
                old(self).key(),
            ),
            r is None ==> final(self).entries() == old(self).entries() && final(self).last_id()
                == old(self).last_id(),
            r matches Some(x) ==> initial_data_loaded(
                *old(self),
                *final(self),
                file_path@,
                text_content(opt_text(text)),
                x,
            ),
    {
        let content = file_content_of(text);
        let readable = match &content {
            FileContent::Parsed(Json::Array(items)) => {
                proof {
                    crate::json_value::lemma_array_view(*items);
                }
                batch_readable(items, self.id_manager.id_type, self.id_key.as_str())
            },
            _ => true,
        };
        if readable {
            Some(self.load_initial_data_content(file_path, content))
        } else {
            None
        }
    }

    /// Merges `update` into `base`: objects merge field by field, anything
    /// else is replaced.
    pub fn merge_json_values(base: Json, update: Json) -> (r: Json)
        ensures
            r@ == merged(base@, update@),
    {
        merge_json_values(base, update)
    }
}

/// A batch that stores fine stores fine up to any point.
proof fn lemma_unreadable_prefix(a: Seq<JsonView>, n: int, t: IdType, key: Seq<char>)
    requires
        0 <= n <= a.len(),
        !batch_unreadable(a, t, key),
    ensures
        !batch_unreadable(a.take(n), t, key),
    decreases a.len() - n,
{
    if n < a.len() {
        lemma_unreadable_prefix(a, n + 1, t, key);
        assert(a.take(n + 1).drop_last() =~= a.take(n));
    } else {
        assert(a.take(n) =~= a);
    }
}


/// The identifier an added item is stored under: the one the collection made,
/// or the item's own.
pub open spec fn stored_id(a: InMemoryCollection, b: InMemoryCollection, item: JsonView) -> Seq<char> {
    if a.id_type() != IdType::NoId || a.last_id() is Some {
        match b.last_id() {
            Some(v) => id_text(v),
            None => Seq::empty(),
        }
    } else {
        match id_field(item, a.key()) {
            IdField::Text(s) => s,
            IdField::Number(t, _) => t,
            IdField::Absent => Seq::empty(),
        }
    }
}

/// An added item reads back under the identifier it was stored under, and
/// every other identifier reads as before.
pub proof fn lemma_add_then_get(
    a: InMemoryCollection,
    b: InMemoryCollection,
    item: JsonView,
    stored: JsonView,
    other: Seq<char>,
)
    requires
        a.wf(),
        add_outcome(a, b, item, Some(stored)),
    ensures
        field_value(b.entries(), stored_id(a, b, item)) == Some(stored),
        other != stored_id(a, b, item) ==> field_value(b.entries(), other) == field_value(
            a.entries(),
            other,
        ),
{
    lemma_put_then_get(a.entries(), stored_id(a, b, item), stored, other);
}

} // verus!
