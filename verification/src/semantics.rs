//! What the generated routines do when they run on an instance of the record.
//!
//! An instance is the list of its fields' values, in the order of the
//! declaration. A value carries the name of its type, so that a routine that
//! takes a value of any type can test it against the type of a field. A
//! routine that stops the program is modelled by the result `Err`.

use vstd::prelude::*;
use crate::code::{type_at, Elem, ElemModel, GetFn, IndexOps, KeysFn, SetFn, ValuesFn};
use crate::record::texts;

verus! {

/// A value of a field, together with the type that it is of.
#[derive(Debug, PartialEq, Eq)]
pub struct Value {
    /// The tokens of the value's type.
    pub ty: String,
    /// What the value holds.
    pub data: u64,
}

/// The mathematical form of a [`Value`].
pub struct ValueModel {
    pub ty: Seq<char>,
    pub data: u64,
}

impl View for Value {
    type V = ValueModel;

    open spec fn view(&self) -> ValueModel {
        ValueModel { ty: self.ty@, data: self.data }
    }
}

impl Value {
    /// A value of the type `ty`.
    pub fn new(ty: &str, data: u64) -> (value: Value)
        ensures
            value@ == (ValueModel { ty: ty@, data }),
    {
        Value { ty: ty.to_owned(), data }
    }

    /// A copy of the value.
    pub fn duplicate(&self) -> (copy: Value)
        ensures
            copy@ == self@,
    {
        Value { ty: self.ty.clone(), data: self.data }
    }

    /// What the value holds, where it is of the type `ty`, and nothing where
    /// it is of another type.
    pub fn downcast_ref(&self, ty: &str) -> (data: Option<u64>)
        ensures
            data == (if self.ty@ == ty@ {
                Some(self.data)
            } else {
                None
            }),
    {
        if self.ty == ty.to_owned() {
            Some(self.data)
        } else {
            None
        }
    }
}

/// The mathematical form of each value of an instance.
pub open spec fn values_of(record: Seq<Value>) -> Seq<ValueModel> {
    record.map_values(|v: Value| v@)
}

/// Why a routine stopped the program.
#[derive(Clone, Copy, Debug, PartialEq, Eq, Structural)]
pub enum Fatal {
    /// The key names no field of the record.
    UnknownKey,
}

/// Whether `i` is the position of the first field that `key` names: the match
/// arm of that field is the one that a keyed routine takes.
pub open spec fn is_slot(fields: Seq<Seq<char>>, key: Seq<char>, i: int) -> bool {
    &&& 0 <= i < fields.len()
    &&& fields[i] == key
    &&& forall|j: int| 0 <= j < i ==> fields[j] != key
}

/// The position of the field that `key` names, if it names one.
pub open spec fn slot_of(fields: Seq<Seq<char>>, key: Seq<char>) -> Option<int> {
    if exists|i: int| is_slot(fields, key, i) {
        Some(choose|i: int| is_slot(fields, key, i))
    } else {
        None
    }
}

/// A key names at most one position, and [`slot_of`] gives it.
pub proof fn lemma_slot_of(fields: Seq<Seq<char>>, key: Seq<char>)
    ensures
        forall|i: int| is_slot(fields, key, i) ==> slot_of(fields, key) == Some(i),
        slot_of(fields, key) matches Some(i) ==> is_slot(fields, key, i),
        slot_of(fields, key) is None <==> !fields.contains(key),
{
    assert forall|i: int| is_slot(fields, key, i) implies slot_of(fields, key) == Some(i) by {
        let c = choose|c: int| is_slot(fields, key, c);
        assert(is_slot(fields, key, c));
        assert(c == i) by {
            if c < i {
                assert(fields[c] == key);
            } else if i < c {
                assert(fields[i] == key);
            }
        }
    }
    if fields.contains(key) {
        lemma_first_slot(fields, key, fields.len() as int);
    }
    if slot_of(fields, key) is Some {
        let i = slot_of(fields, key)->Some_0;
        assert(is_slot(fields, key, i));
        assert(fields[i] == key);
    }
}

/// Where `key` is among the first `n` names, some position is the first that
/// it names.
proof fn lemma_first_slot(fields: Seq<Seq<char>>, key: Seq<char>, n: int)
    requires
        0 <= n <= fields.len(),
        exists|k: int| 0 <= k < n && fields[k] == key,
    ensures
        exists|i: int| is_slot(fields, key, i),
    decreases n,
{
    if exists|k: int| 0 <= k < n - 1 && fields[k] == key {
        lemma_first_slot(fields, key, n - 1);
    } else {
        assert(fields[n - 1] == key);
        assert(is_slot(fields, key, n - 1));
    }
}

/// Finds the position of the field that `key` names.
pub fn find_slot(fields: &Vec<String>, key: &str) -> (slot: Option<usize>)
    ensures
        slot matches Some(i) ==> is_slot(texts(fields@), key@, i as int),
        slot is None ==> !texts(fields@).contains(key@),
        match slot {
            Some(i) => slot_of(texts(fields@), key@) == Some(i as int),
            None => slot_of(texts(fields@), key@) is None,
        },
{
    let wanted = key.to_owned();
    let mut i: usize = 0;
    while i < fields.len()
        invariant
            0 <= i <= fields.len(),
            wanted@ == key@,
            forall|j: int| 0 <= j < i ==> texts(fields@)[j] != key@,
        decreases fields.len() - i,
    {
        if fields[i] == wanted {
            proof {
                assert(is_slot(texts(fields@), key@, i as int));
                lemma_slot_of(texts(fields@), key@);
            }
            return Some(i);
        }
        i += 1;
    }
    proof {
        lemma_slot_of(texts(fields@), key@);
    }
    None
}

/// What `keys` returns.
pub open spec fn keys_result(names: Seq<Seq<char>>) -> Seq<Seq<char>> {
    names
}

/// What `values` returns on an instance: the value of each field.
pub open spec fn values_result(fields: Seq<Seq<char>>, record: Seq<ValueModel>) -> Seq<
    ValueModel,
> {
    Seq::new(fields.len(), |i: int| record[i])
}

/// What `get` and the subscript that reads return on an instance: the value
/// of the field that the key names.
pub open spec fn get_result(fields: Seq<Seq<char>>, record: Seq<ValueModel>, key: Seq<char>)
    -> Result<ValueModel, Fatal> {
    match slot_of(fields, key) {
        Some(i) => Ok(record[i]),
        None => Err(Fatal::UnknownKey),
    }
}

/// Whether `set` assigns a value to a field of the type `ty`: always where it
/// takes a value of the common type, and where it takes a value of any type
/// only if the value is of the type `ty`.
pub open spec fn accepts(elem: ElemModel, ty: Seq<char>, value: ValueModel) -> bool {
    match elem {
        ElemModel::Common(_) => true,
        ElemModel::Any => value.ty == ty,
    }
}

/// The instance that `set` leaves.
pub open spec fn set_result(
    elem: ElemModel,
    fields: Seq<Seq<char>>,
    types: Seq<Seq<char>>,
    record: Seq<ValueModel>,
    key: Seq<char>,
    value: ValueModel,
) -> Result<Seq<ValueModel>, Fatal> {
    match slot_of(fields, key) {
        Some(i) => Ok(
            if accepts(elem, type_at(types, i), value) {
                record.update(i, value)
            } else {
                record
            },
        ),
        None => Err(Fatal::UnknownKey),
    }
}

/// The mathematical form of what a routine hands out.
pub open spec fn handed_out(out: Result<&Value, Fatal>) -> Result<ValueModel, Fatal> {
    match out {
        Ok(value) => Ok(value@),
        Err(e) => Err(e),
    }
}

impl KeysFn {
    /// What the routine returns.
    pub open spec fn result(&self) -> Seq<Seq<char>> {
        keys_result(texts(self.names@))
    }

    /// Runs the routine.
    pub fn call(&self) -> (keys: Vec<String>)
        ensures
            keys.len() == self.names.len(),
            texts(keys@) == self.result(),
    {
        crate::rsdict::copy_names(&self.names)
    }
}

impl ValuesFn {
    /// What the routine returns on an instance.
    pub open spec fn result(&self, record: Seq<ValueModel>) -> Seq<ValueModel> {
        values_result(texts(self.fields@), record)
    }

    /// Runs the routine on an instance.
    pub fn call(&self, record: &Vec<Value>) -> (values: Vec<Value>)
        requires
            record.len() == self.fields.len(),
        ensures
            values.len() == record.len(),
            values_of(values@) == self.result(values_of(record@)),
    {
        let mut values: Vec<Value> = Vec::new();
        let mut i: usize = 0;
        while i < self.fields.len()
            invariant
                0 <= i <= self.fields.len(),
                record.len() == self.fields.len(),
                values.len() == i,
                forall|k: int| 0 <= k < i ==> values@[k]@ == record@[k]@,
            decreases self.fields.len() - i,
        {
            values.push(record[i].duplicate());
            i += 1;
        }
        assert(values_of(values@) =~= self.result(values_of(record@)));
        values
    }
}

impl GetFn {
    /// The position of the field to which the routine takes a key.
    pub open spec fn slot(&self, key: Seq<char>) -> Option<int> {
        slot_of(texts(self.fields@), key)
    }

    /// What the routine returns on an instance.
    pub open spec fn result(&self, record: Seq<ValueModel>, key: Seq<char>) -> Result<
        ValueModel,
        Fatal,
    > {
        get_result(texts(self.fields@), record, key)
    }

    /// Runs the routine on an instance.
    pub fn call<'a>(&self, record: &'a Vec<Value>, key: &str) -> (out: Result<&'a Value, Fatal>)
        requires
            record.len() == self.fields.len(),
        ensures
            handed_out(out) == self.result(values_of(record@), key@),
    {
        match find_slot(&self.fields, key) {
            Some(i) => Ok(&record[i]),
            None => Err(Fatal::UnknownKey),
        }
    }
}

impl SetFn {
    /// Whether the routine has a type for each field.
    pub open spec fn wf(&self) -> bool {
        self.types.len() == self.fields.len()
    }

    /// The position of the field to which the routine takes a key.
    pub open spec fn slot(&self, key: Seq<char>) -> Option<int> {
        slot_of(texts(self.fields@), key)
    }

    /// The instance that the routine leaves.
    pub open spec fn result(&self, record: Seq<ValueModel>, key: Seq<char>, value: ValueModel)
        -> Result<Seq<ValueModel>, Fatal> {
        set_result(self.elem@, texts(self.fields@), texts(self.types@), record, key, value)
    }

    /// Runs the routine on an instance.
    pub fn call(&self, record: &mut Vec<Value>, key: &str, value: &Value) -> (done: Result<
        (),
        Fatal,
    >)
        requires
            self.wf(),
            old(record).len() == self.fields.len(),
        ensures
            final(record).len() == old(record).len(),
            match self.result(values_of(old(record)@), key@, value@) {
                Ok(after) => done is Ok && values_of(final(record)@) == after,
                Err(e) => done == Err::<(), Fatal>(e) && final(record)@ == old(record)@,
            },
    {
        match find_slot(&self.fields, key) {
            Some(i) => {
                let assign = match &self.elem {
                    Elem::Common(_) => true,
                    Elem::Any => value.ty == self.types[i],
                };
                if assign {
                    record.set(i, value.duplicate());
                    assert(values_of(record@) =~= values_of(old(record)@).update(i as int, value@));
                }
                Ok(())
            },
            None => Err(Fatal::UnknownKey),
        }
    }
}

impl IndexOps {
    /// The position of the field to which the subscripts take a key.
    pub open spec fn slot(&self, key: Seq<char>) -> Option<int> {
        slot_of(texts(self.fields@), key)
    }

    /// What the subscript that reads returns on an instance.
    pub open spec fn result(&self, record: Seq<ValueModel>, key: Seq<char>) -> Result<
        ValueModel,
        Fatal,
    > {
        get_result(texts(self.fields@), record, key)
    }

    /// Runs the subscript that reads on an instance.
    pub fn index<'a>(&self, record: &'a Vec<Value>, key: &str) -> (out: Result<&'a Value, Fatal>)
        requires
            record.len() == self.fields.len(),
        ensures
            handed_out(out) == self.result(values_of(record@), key@),
    {
        match find_slot(&self.fields, key) {
            Some(i) => Ok(&record[i]),
            None => Err(Fatal::UnknownKey),
        }
    }

    /// Runs the subscript that writes on an instance: it hands out the field
    /// that the key names, for the caller to assign to.
    pub fn index_mut<'a>(&self, record: &'a mut Vec<Value>, key: &str) -> (out: Result<
        &'a mut Value,
        Fatal,
    >)
        requires
            old(record).len() == self.fields.len(),
        ensures
            match self.slot(key@) {
                Some(i) => out matches Ok(slot) && *slot == old(record)@[i] && final(record)@
                    == old(record)@.update(i, *final(slot)),
                None => out == Err::<&mut Value, Fatal>(Fatal::UnknownKey) && final(record)@
                    == old(record)@,
            },
    {
        match find_slot(&self.fields, key) {
            Some(i) => Ok(&mut record[i]),
            None => Err(Fatal::UnknownKey),
        }
    }
}

} // verus!
