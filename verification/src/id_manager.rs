//! Identifier generation for in-memory collections.

use vstd::prelude::*;

use crate::text::{decimal, decimal_chars, string_of};

verus! {

/// Strategy used to identify the items of a collection.
#[derive(Debug, Clone, Copy, PartialEq, Eq, Structural)]
pub enum IdType {
    /// Random UUID v4 identifiers.
    Uuid,
    /// Sequential integer identifiers, starting at 1.
    Int,
    /// No generated identifier: items bring their own.
    NoId,
}

impl Default for IdType {
    fn default() -> (r: Self)
        ensures
            r == IdType::Uuid,
    {
        IdType::Uuid
    }
}

/// A generated identifier.
#[derive(Debug, Clone, PartialEq, Eq)]
pub enum IdValue {
    /// A UUID in its textual form.
    Uuid(String),
    /// An integer identifier.
    Int(u64),
}

/// The text of an identifier, as `Display` renders it.
pub open spec fn id_text(v: IdValue) -> Seq<char> {
    match v {
        IdValue::Int(n) => decimal(n as nat),
        IdValue::Uuid(s) => s@,
    }
}

impl IdValue {
    /// A copy of this identifier.
    pub fn duplicate(&self) -> (r: Self)
        ensures
            r == *self,
    {
        match self {
            IdValue::Int(n) => IdValue::Int(*n),
            IdValue::Uuid(u) => IdValue::Uuid(u.clone()),
        }
    }

    /// The identifier as text: the decimal number, or the UUID string.
    pub fn to_string(&self) -> (s: String)
        ensures
            s@ == id_text(*self),
    {
        match self {
            IdValue::Int(n) => {
                let chars = decimal_chars(*n);
                string_of(&chars)
            },
            IdValue::Uuid(u) => u.clone(),
        }
    }
}

/// A lowercase hexadecimal digit.
pub open spec fn is_lower_hex(c: char) -> bool {
    (48 <= (c as u32) <= 57) || (97 <= (c as u32) <= 102)
}

/// A UUID v4 in hyphenated lowercase form, `xxxxxxxx-xxxx-4xxx-yxxx-xxxxxxxxxxxx`:
/// lowercase hexadecimal digits `x`, the version digit `4`, and a variant digit
/// `y` among `8`, `9`, `a`, `b`.
pub open spec fn uuid_v4_text(s: Seq<char>) -> bool {
    &&& s.len() == 36
    &&& forall|i: int|
        0 <= i < 36 ==> if i == 8 || i == 13 || i == 18 || i == 23 {
            #[trigger] s[i] == '-'
        } else {
            is_lower_hex(s[i])
        }
    &&& s[14] == '4'
    &&& (s[19] == '8' || s[19] == '9' || s[19] == 'a' || s[19] == 'b')
}

/// A fresh random UUID (`Uuid::new_v4().to_string()`): the contract states
/// the form that the uuid crate gives it (hyphenated, lowercase, version 4,
/// RFC 4122 variant); its random digits are not stated.
#[verifier::external_body]
fn new_uuid_text() -> (s: String)
    ensures
        uuid_v4_text(s@),
{
    uuid::Uuid::new_v4().to_string()
}

/// Hands out identifiers of one [`IdType`], remembering the last one given.
pub struct IdManager {
    /// The strategy of this manager.
    pub id_type: IdType,
    /// The last identifier handed out or set.
    pub current: Option<IdValue>,
}

/// The integer that follows `id`, wrapping from `u64::MAX` to 0.
pub open spec fn next_int(id: u64) -> u64 {
    if id == u64::MAX {
        0
    } else {
        (id + 1) as u64
    }
}

impl IdManager {
    /// A manager of the given type that has handed out nothing yet.
    pub fn new(id_type: IdType) -> (m: Self)
        ensures
            m.id_type == id_type,
            m.current.is_none(),
    {
        IdManager { id_type, current: None }
    }

    /// Sets the last identifier, when its kind matches the manager's type.
    pub fn set_current(&mut self, value: IdValue) -> (r: Result<(), String>)
        ensures
            final(self).id_type == old(self).id_type,
            (r is Ok) <==> (
                (old(self).id_type == IdType::Int && value is Int)
                || (old(self).id_type == IdType::Uuid && value is Uuid)),
            r is Ok ==> final(self).current == Some(value),
            r is Err ==> final(self).current == old(self).current,
            r matches Err(msg) ==> msg@ == (match old(self).id_type {
                IdType::NoId => "Cannot set current value for IdType::None"@,
                IdType::Int => "Cannot set UUID value for Int IdManager"@,
                IdType::Uuid => "Cannot set Int value for UUID IdManager"@,
            }),
    {
        match (&self.id_type, &value) {
            (IdType::Int, IdValue::Int(_)) => {
                self.current = Some(value);
                Ok(())
            },
            (IdType::Uuid, IdValue::Uuid(_)) => {
                self.current = Some(value);
                Ok(())
            },
            (IdType::NoId, _) => Err("Cannot set current value for IdType::None".to_string()),
            (IdType::Int, IdValue::Uuid(_)) => Err(
                "Cannot set UUID value for Int IdManager".to_string(),
            ),
            (IdType::Uuid, IdValue::Int(_)) => Err(
                "Cannot set Int value for UUID IdManager".to_string(),
            ),
        }
    }

    /// The next identifier: one past the current integer (wrapping), a fresh UUID
    /// after a UUID, or the first of the manager's type; `None` for [`IdType::NoId`]
    /// with nothing set. The returned identifier becomes the current one.
    pub fn next(&mut self) -> (r: Option<IdValue>)
        ensures
            final(self).id_type == old(self).id_type,
            match old(self).current {
                Some(IdValue::Int(id)) => r == Some(IdValue::Int(next_int(id))),
                Some(IdValue::Uuid(_)) => r matches Some(IdValue::Uuid(s)) && uuid_v4_text(s@),
                None => match old(self).id_type {
                    IdType::Int => r == Some(IdValue::Int(1)),
                    IdType::Uuid => r matches Some(IdValue::Uuid(s)) && uuid_v4_text(s@),
                    IdType::NoId => r is None,
                },
            },
            r is Some ==> final(self).current == r,
            r is None ==> final(self).current == old(self).current,
    {
        let item = match &self.current {
            Some(IdValue::Int(id)) => {
                if *id == u64::MAX {
                    IdValue::Int(0)
                } else {
                    IdValue::Int(*id + 1)
                }
            },
            Some(IdValue::Uuid(_)) => IdValue::Uuid(new_uuid_text()),
            None => match self.id_type {
                IdType::Int => IdValue::Int(1),
                IdType::Uuid => IdValue::Uuid(new_uuid_text()),
                IdType::NoId => {
                    return None;
                },
            },
        };
        self.current = Some(item.duplicate());
        Some(item)
    }

    /// The next `n` identifiers, in the order [`IdManager::next`] hands them out,
    /// stopping early when it hands out none.
    pub fn take(self, n: usize) -> (ids: Vec<IdValue>)
        ensures
            ids.len() <= n,
            (self.id_type == IdType::NoId && self.current.is_none()) ==> ids.len() == 0,
            !(self.id_type == IdType::NoId && self.current.is_none()) ==> ids.len() == n,
            self.id_type == IdType::Int && self.current.is_none() ==> ids.len() == n
                && forall|i: int| 0 <= i < n ==> #[trigger] ids@[i] == IdValue::Int((i + 1) as u64),
    {
        let mut this = self;
        let mut ids: Vec<IdValue> = Vec::new();
        let ghost counting = self.id_type == IdType::Int && self.current.is_none();
        let ghost start_type = self.id_type;
        let mut i: usize = 0;
        while i < n
            invariant
                i <= n,
                ids.len() == i,
                this.id_type == start_type,
                start_type == self.id_type,
                counting == (self.id_type == IdType::Int && self.current.is_none()),
                (self.id_type == IdType::NoId && self.current.is_none()) ==> (this.current.is_none() && ids.len() == 0),
                !(self.id_type == IdType::NoId && self.current.is_none()) ==> (i > 0 ==> this.current.is_some()),
                !(self.id_type == IdType::NoId && self.current.is_none()) && i == 0 ==> (this.current == self.current),
                counting ==> this.id_type == IdType::Int,
                counting && i == 0 ==> this.current.is_none(),
                counting && i > 0 ==> this.current == Some(IdValue::Int(i as u64)),
                counting ==> forall|k: int| 0 <= k < i ==> #[trigger] ids@[k] == IdValue::Int((k + 1) as u64),
            decreases n - i,
        {
            match this.next() {
                Some(id) => ids.push(id),
                None => {
                    assert(!counting);
                    return ids;
                },
            }
            i += 1;
        }
        ids
    }
}

} // verus!
