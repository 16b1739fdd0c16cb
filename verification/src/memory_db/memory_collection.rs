//! A named in-memory collection that answers criteria queries over its items.

use vstd::prelude::*;

use crate::id_manager::{IdType, IdValue};
use crate::in_memory_collection::{
    add_outcome, batch_added, batch_entries, batch_max, batch_readable, batch_unreadable,
    content_unloadable, content_view, items_of, opt_text, text_content, Entries, FileContent,
    InMemoryCollection,
};
use crate::json_value::{
    field_index, field_value, fields_with, file_content_of, merged, with_field, Json, JsonView,
};
use crate::memory_db::collection_config::CollectionConfig;
use crate::memory_db::criteria::{tree_holds, Criteria, CriteriaTree};
use crate::memory_db::criteria_builder::{start_ok, started, CriteriaBuilder};
use crate::text::{chars_of, decimal, decimal_chars, push_all, push_str, string_of};

verus! {

/// Whether an item is an object whose fields satisfy the tree.
pub open spec fn object_holds(v: JsonView, t: CriteriaTree) -> bool {
    match v {
        JsonView::Object(fields) => tree_holds(t, fields),
        _ => false,
    }
}

/// The items that are objects satisfying the tree, in order.
pub open spec fn items_matching(items: Seq<JsonView>, t: CriteriaTree) -> Seq<JsonView>
    decreases items.len(),
{
    if items.len() == 0 {
        Seq::empty()
    } else {
        let prev = items_matching(items.drop_last(), t);
        if object_holds(items.last(), t) {
            prev.push(items.last())
        } else {
            prev
        }
    }
}

/// A query keeps exactly the objects that satisfy its criteria: whatever it
/// returns satisfies them, every stored object that satisfies them is
/// returned, and it never returns more items than are stored.
pub proof fn lemma_matching_selects_exactly(items: Seq<JsonView>, t: CriteriaTree)
    ensures
        forall|i: int|
            0 <= i < items_matching(items, t).len() ==> object_holds(
                #[trigger] items_matching(items, t)[i],
                t,
            ),
        forall|i: int|
            0 <= i < items.len() && object_holds(items[i], t) ==> items_matching(
                items,
                t,
            ).contains(#[trigger] items[i]),
        items_matching(items, t).len() <= items.len(),
    decreases items.len(),
{
    if items.len() > 0 {
        let init = items.drop_last();
        let prev = items_matching(init, t);
        lemma_matching_selects_exactly(init, t);
        let m = items_matching(items, t);
        assert forall|i: int| 0 <= i < m.len() implies object_holds(#[trigger] m[i], t) by {
            if i < prev.len() {
                assert(m[i] == prev[i]);
            }
        }
        assert forall|i: int| 0 <= i < items.len() && object_holds(items[i], t) implies m.contains(
            #[trigger] items[i],
        ) by {
            if i < items.len() - 1 {
                assert(items[i] == init[i]);
                let k = choose|k: int| 0 <= k < prev.len() && prev[k] == init[i];
                assert(m[k] == prev[k]);
            } else {
                assert(m[m.len() - 1] == items.last());
            }
        }
    }
}

/// The tree of one constraint.
pub open spec fn constraint_tree(c: crate::criteria::Criteria) -> CriteriaTree {
    CriteriaTree::Constraint(c.field@, c.comparer, c.value@)
}

/// The message for a root that is not an array.
pub open spec fn not_array_message() -> Seq<char> {
    "⚠️ Informed JSON does not contain a JSON array in the root, skipping initial data load"@
}

/// `b` and the answer `r` after the data file `file_path` with content `c`
/// (see [`content_view`]) is loaded into `a`: the objects of an array are
/// stored as by [`InternalMemoryCollection::add_batch`] and the message counts
/// them; an unreadable file, a file that is not JSON and a root that is not an
/// array are refused with a message naming the file, and nothing is stored.
pub open spec fn file_loaded(
    a: InternalMemoryCollection,
    b: InternalMemoryCollection,
    file_path: Seq<char>,
    c: Option<Option<JsonView>>,
    r: Result<String, String>,
) -> bool {
    match c {
        Some(Some(JsonView::Array(arr))) => {
            let t = a.settings().id_type;
            let key = a.settings().id_key@;
            &&& r matches Ok(m) && m@ == "✔️ Loaded "@ + decimal(batch_added(arr, t, key).len())
                + " initial items from "@ + file_path
            &&& b.entries() == batch_entries(a.entries(), arr, t, key)
            &&& b.store().last_id() == match batch_max(arr, t, key) {
                Some(v) => Some(IdValue::Int(v)),
                None => a.store().last_id(),
            }
        },
        _ => {
            &&& b.entries() == a.entries()
            &&& b.store().last_id() == a.store().last_id()
            &&& match c {
                None => r matches Err(m) && m@ == "⚠️ Could not read file "@ + file_path
                    + ", skipping initial data load"@,
                Some(None) => r matches Err(m) && m@ == "⚠️ File "@ + file_path
                    + " does not contain valid JSON, skipping initial data load"@,
                Some(Some(_)) => r matches Err(m) && m@ == "Error to process the file "@
                    + file_path + ". Details: "@ + not_array_message(),
            }
        },
    }
}

/// A named in-memory collection.
pub struct InternalMemoryCollection {
    collection: InMemoryCollection,
    config: CollectionConfig,
}

impl InternalMemoryCollection {
    /// The underlying store.
    pub closed spec fn store(&self) -> InMemoryCollection {
        self.collection
    }

    /// The settings it was made with.
    pub closed spec fn settings(&self) -> CollectionConfig {
        self.config
    }

    /// The stored items, keyed by identifier.
    pub open spec fn entries(&self) -> Entries {
        self.store().entries()
    }

    /// The store is well formed and follows the settings.
    pub open spec fn wf(&self) -> bool {
        &&& self.store().wf()
        &&& self.store().id_type() == self.settings().id_type
        &&& self.store().key() == self.settings().id_key@
    }

    /// An empty collection with the given settings.
    pub fn new(config: CollectionConfig) -> (c: Self)
        ensures
            c.wf(),
            c.entries().len() == 0,
            c.store().last_id().is_none(),
            c.settings() == config,
    {
        let collection = InMemoryCollection::new(
            config.id_type,
            config.id_key.clone(),
            Some(config.name.clone()),
        );
        InternalMemoryCollection { collection, config }
    }

    /// An empty collection with the given settings.
    pub fn new_coll(config: CollectionConfig) -> (c: Self)
        ensures
            c.wf(),
            c.entries().len() == 0,
            c.store().last_id().is_none(),
            c.settings() == config,
    {
        Self::new(config)
    }

    /// The settings it was made with.
    pub fn config(&self) -> (c: &CollectionConfig)
        ensures
            *c == self.settings(),
    {
        &self.config
    }

    /// Merges `update` into `base`: objects merge field by field, anything
    /// else is replaced.
    pub fn merge_json_values(base: Json, update: Json) -> (r: Json)
        ensures
            r@ == merged(base@, update@),
    {
        InMemoryCollection::merge_json_values(base, update)
    }

    /// Every item, in storage order.
    pub fn get_all(&self) -> (items: Vec<Json>)
        ensures
            items@.map_values(|j: Json| j@) == items_of(self.entries()),
    {
        self.collection.get_all()
    }

    /// At most `limit` items, skipping the first `offset`, in storage order.
    pub fn get_paginated(&self, offset: usize, limit: usize) -> (items: Vec<Json>)
        ensures
            items@.map_values(|j: Json| j@) == items_of(self.entries()).subrange(
                if offset < self.entries().len() {
                    offset as int
                } else {
                    self.entries().len() as int
                },
                if offset < self.entries().len() && limit < self.entries().len() - offset {
                    offset + limit
                } else {
                    self.entries().len() as int
                },
            ),
    {
        self.collection.get_paginated(offset, limit)
    }

    /// The item stored under `id`, if any.
    pub fn get(&self, id: &str) -> (r: Option<Json>)
        ensures
            match r {
                Some(item) => field_value(self.entries(), id@) == Some(item@),
                None => field_value(self.entries(), id@) is None,
            },
    {
        self.collection.get(id)
    }

    /// Whether an item is stored under `id`.
    pub fn contains_id(&self, id: &str) -> (r: bool)
        ensures
            r == (field_index(self.entries(), id@) is Some),
    {
        self.collection.contains_id(id)
    }

    /// The number of stored items.
    pub fn count(&self) -> (n: usize)
        ensures
            n == self.entries().len(),
    {
        self.collection.count()
    }

    /// The objects among `items` whose fields satisfy `criteria`, in order.
    fn select(items: Vec<Json>, criteria: &Criteria) -> (out: Vec<Json>)
        ensures
            out@.map_values(|j: Json| j@) == items_matching(
                items@.map_values(|j: Json| j@),
                criteria@,
            ),
    {
        let ghost all = items@.map_values(|j: Json| j@);
        let mut out: Vec<Json> = Vec::new();
        let mut k: usize = 0;
        while k < items.len()
            invariant
                k <= items.len(),
                all == items@.map_values(|j: Json| j@),
                out@.map_values(|j: Json| j@) == items_matching(all.take(k as int), criteria@),
            decreases items.len() - k,
        {
            assert(all.take(k + 1).drop_last() =~= all.take(k as int));
            assert(all.take(k + 1).last() == items@[k as int]@);
            let keep = match &items[k] {
                Json::Object(fields) => {
                    proof {
                        crate::json_value::lemma_object_view(*fields);
                    }
                    criteria.compare_item(fields)
                },
                _ => false,
            };
            if keep {
                let ghost before = out@.map_values(|j: Json| j@);
                out.push(items[k].duplicate());
                assert(out@.map_values(|j: Json| j@) =~= before.push(items@[k as int]@));
            }
            k += 1;
        }
        assert(all.take(items.len() as int) =~= all);
        out
    }

    /// The stored objects that satisfy one constraint, in storage order.
    pub fn get_from_constraint(&self, constraint: &crate::criteria::Criteria) -> (out: Vec<Json>)
        ensures
            out@.map_values(|j: Json| j@) == items_matching(
                items_of(self.entries()),
                constraint_tree(*constraint),
            ),
    {
        let criteria = Criteria::Final(
            crate::criteria::Criteria {
                field: constraint.field.clone(),
                comparer: constraint.comparer,
                value: constraint.value.duplicate(),
            },
        );
        Self::select(self.collection.get_all(), &criteria)
    }

    /// The stored objects that satisfy the criteria, in storage order.
    pub fn get_from_criteria(&self, criteria: &Criteria) -> (out: Vec<Json>)
        ensures
            out@.map_values(|j: Json| j@) == items_matching(items_of(self.entries()), criteria@),
    {
        Self::select(self.collection.get_all(), criteria)
    }

    /// The stored objects that satisfy a `WHERE` clause, in storage order;
    /// nothing where the clause is refused.
    pub fn get_from_where(&self, where_statement: &str) -> (out: Vec<Json>)
        requires
            where_statement@.len() <= i64::MAX,
            start_ok(where_statement@),
        ensures
            match started(where_statement@) {
                Ok(t) => out@.map_values(|j: Json| j@) == items_matching(
                    items_of(self.entries()),
                    t,
                ),
                Err(_) => out.len() == 0,
            },
    {
        match CriteriaBuilder::start(where_statement) {
            Ok(criteria) => self.get_from_criteria(&criteria),
            Err(_) => Vec::new(),
        }
    }

    /// Stores a new item (see [`InMemoryCollection::add`]) and returns it.
    pub fn add(&mut self, item: Json) -> (r: Option<Json>)
        requires
            old(self).wf(),
        ensures
            final(self).wf(),
            final(self).settings() == old(self).settings(),
            add_outcome(
                old(self).store(),
                final(self).store(),
                item@,
                match r {
                    Some(x) => Some(x@),
                    None => None,
                },
            ),
            old(self).settings().id_type == IdType::Int ==> final(self).store().last_id() == Some(
                match old(self).store().last_id() {
                    Some(IdValue::Int(n)) => IdValue::Int(crate::id_manager::next_int(n)),
                    _ => IdValue::Int(1),
                },
            ),
    {
        self.collection.add(item)
    }

    /// Stores the objects of an array that carry an identifier of the
    /// collection's kind (see [`InMemoryCollection::add_batch`]).
    pub fn add_batch(&mut self, items: Json) -> (added: Vec<Json>)
        requires
            old(self).wf(),
            items@ matches JsonView::Array(a) ==> !batch_unreadable(
                a,
                old(self).settings().id_type,
                old(self).settings().id_key@,
            ),
        ensures
            final(self).wf(),
            final(self).settings() == old(self).settings(),
            match items@ {
                JsonView::Array(a) => {
                    let t = old(self).settings().id_type;
                    let key = old(self).settings().id_key@;
                    &&& final(self).entries() == batch_entries(old(self).entries(), a, t, key)
                    &&& added@.map_values(|j: Json| j@) == batch_added(a, t, key)
                    &&& final(self).store().last_id() == match batch_max(a, t, key) {
                        Some(v) => Some(IdValue::Int(v)),
                        None => old(self).store().last_id(),
                    }
                },
                _ => final(self).entries() == old(self).entries() && added.len() == 0
                    && final(self).store().last_id() == old(self).store().last_id(),
            },
    {
        self.collection.add_batch(items)
    }

    /// Replaces the item stored under `id`, if any, with `item` carrying `id`
    /// in its id field; returns the stored item.
    pub fn update(&mut self, id: &str, item: Json) -> (r: Option<Json>)
        requires
            old(self).wf(),
        ensures
            final(self).wf(),
            final(self).settings() == old(self).settings(),
            final(self).store().last_id() == old(self).store().last_id(),
            match field_index(old(self).entries(), id@) {
                Some(_) => {
                    let stored = with_field(item@, old(self).settings().id_key@, JsonView::Str(id@));
                    &&& r matches Some(s) && s@ == stored
                    &&& final(self).entries() == fields_with(old(self).entries(), id@, stored)
                },
                None => r is None && final(self).entries() == old(self).entries(),
            },
    {
        self.collection.update(id, item)
    }

    /// Merges `partial_item` into the item stored under `id`, if any, keeps
    /// `id` in its id field, and returns the stored item.
    pub fn update_partial(&mut self, id: &str, partial_item: Json) -> (r: Option<Json>)
        requires
            old(self).wf(),
        ensures
            final(self).wf(),
            final(self).settings() == old(self).settings(),
            final(self).store().last_id() == old(self).store().last_id(),
            match field_value(old(self).entries(), id@) {
                Some(existing) => {
                    let stored = with_field(
                        merged(existing, partial_item@),
                        old(self).settings().id_key@,
                        JsonView::Str(id@),
                    );
                    &&& r matches Some(s) && s@ == stored
                    &&& final(self).entries() == fields_with(old(self).entries(), id@, stored)
                },
                None => r is None && final(self).entries() == old(self).entries(),
            },
    {
        self.collection.update_partial(id, partial_item)
    }

    /// Removes and returns the item stored under `id`, if any.
    pub fn delete(&mut self, id: &str) -> (r: Option<Json>)
        requires
            old(self).wf(),
        ensures
            final(self).wf(),
            final(self).settings() == old(self).settings(),
            final(self).store().last_id() == old(self).store().last_id(),
            match field_index(old(self).entries(), id@) {
                Some(i) => r matches Some(item) && item@ == old(self).entries()[i].1
                    && final(self).entries() == old(self).entries().remove(i),
                None => r is None && final(self).entries() == old(self).entries(),
            },
    {
        self.collection.delete(id)
    }

    /// Removes every item and returns how many there were.
    pub fn clear(&mut self) -> (n: usize)
        requires
            old(self).wf(),
        ensures
            n == old(self).entries().len(),
            final(self).entries().len() == 0,
            final(self).wf(),
            final(self).settings() == old(self).settings(),
            final(self).store().last_id() == old(self).store().last_id(),
    {
        self.collection.clear()
    }

    /// Loads the items of a JSON array (as [`InternalMemoryCollection::add_batch`]);
    /// any other root is refused and nothing is stored.
    pub fn load_from_json(&mut self, json_value: Json) -> (r: Result<Vec<Json>, String>)
        requires
            old(self).wf(),
            json_value@ matches JsonView::Array(a) ==> !batch_unreadable(
                a,
                old(self).settings().id_type,
                old(self).settings().id_key@,
            ),
        ensures
            final(self).wf(),
            final(self).settings() == old(self).settings(),
            match json_value@ {
                JsonView::Array(a) => {
                    let t = old(self).settings().id_type;
                    let key = old(self).settings().id_key@;
                    &&& r matches Ok(added) && added@.map_values(|j: Json| j@) == batch_added(
                        a,
                        t,
                        key,
                    )
                    &&& final(self).entries() == batch_entries(old(self).entries(), a, t, key)
                    &&& final(self).store().last_id() == match batch_max(a, t, key) {
                        Some(v) => Some(IdValue::Int(v)),
                        None => old(self).store().last_id(),
                    }
                },
                _ => {
                    &&& r matches Err(m) && m@ == not_array_message()
                    &&& final(self).entries() == old(self).entries()
                    &&& final(self).store().last_id() == old(self).store().last_id()
                },
            },
    {
        match json_value {
            Json::Array(_) => Ok(self.add_batch(json_value)),
            _ => {
                proof {
                    reveal_strlit(
                        "⚠️ Informed JSON does not contain a JSON array in the root, skipping initial data load",
                    );
                }
                Err(
                    "⚠️ Informed JSON does not contain a JSON array in the root, skipping initial data load".to_string(),
                )
            },
        }
    }

    /// Loads the content of the data file `file_path` and reports on it (see
    /// [`file_loaded`]).
    pub fn load_from_file_content(&mut self, file_path: &str, content: FileContent) -> (r: Result<
        String,
        String,
    >)
        requires
            old(self).wf(),
            !content_unloadable(
                content_view(content),
                old(self).settings().id_type,
                old(self).settings().id_key@,
            ),
        ensures
            final(self).wf(),
            final(self).settings() == old(self).settings(),
            file_loaded(*old(self), *final(self), file_path@, content_view(content), r),
    {
        proof {
            reveal_strlit("⚠️ Could not read file ");
            reveal_strlit(", skipping initial data load");
            reveal_strlit("⚠️ File ");
            reveal_strlit(" does not contain valid JSON, skipping initial data load");
            reveal_strlit("✔️ Loaded ");
            reveal_strlit(" initial items from ");
            reveal_strlit("Error to process the file ");
            reveal_strlit(". Details: ");
        }
        match content {
            FileContent::Unreadable => {
                let mut m = chars_of("⚠️ Could not read file ");
                push_str(&mut m, file_path);
                push_str(&mut m, ", skipping initial data load");
                Err(string_of(&m))
            },
            FileContent::InvalidJson => {
                let mut m = chars_of("⚠️ File ");
                push_str(&mut m, file_path);
                push_str(&mut m, " does not contain valid JSON, skipping initial data load");
                Err(string_of(&m))
            },
            FileContent::Parsed(j) => match self.load_from_json(j) {
                Ok(added) => {
                    let mut m = chars_of("✔️ Loaded ");
                    let n = decimal_chars(added.len() as u64);
                    push_all(&mut m, &n);
                    push_str(&mut m, " initial items from ");
                    push_str(&mut m, file_path);
                    Ok(string_of(&m))
                },
                Err(error) => {
                    let mut m = chars_of("Error to process the file ");
                    push_str(&mut m, file_path);
                    push_str(&mut m, ". Details: ");
                    push_str(&mut m, error.as_str());
                    Err(string_of(&m))
                },
            },
        }
    }

    /// Loads the data file `file_path` from its text (`None` when it could not
    /// be read), read as JSON here, and reports on it (see [`file_loaded`]);
    /// `None`, with nothing stored, where an integer collection would meet a
    /// number id it cannot compare with the largest one so far.
    pub fn load_from_file(&mut self, file_path: &str, text: Option<&str>) -> (r: Option<
        Result<String, String>,
    >)
        requires
            old(self).wf(),
        ensures
            final(self).wf(),
            final(self).settings() == old(self).settings(),
            r is None <==> content_unloadable(
                text_content(opt_text(text)),
                old(self).settings().id_type,
                old(self).settings().id_key@,
            ),
            r is None ==> final(self).entries() == old(self).entries() && final(self).store().last_id()
                == old(self).store().last_id(),
            r matches Some(x) ==> file_loaded(
                *old(self),
                *final(self),
                file_path@,
                text_content(opt_text(text)),
                x,
            ),
    {
        let content = file_content_of(text);
        let readable = match &content {
            FileContent::Parsed(Json::Array(items)) => {
                proof {
                    crate::json_value::lemma_array_view(*items);
                }
                batch_readable(items, self.config.id_type, self.config.id_key.as_str())
            },
            _ => true,
        };
        if readable {
            Some(self.load_from_file_content(file_path, content))
        } else {
            None
        }
    }
}

} // verus!
