//! What holds of the code that is generated for any record.
//!
//! Each law speaks of a record, the code that [`crate::expand`] generates for
//! it, and an instance of the record: a list with one value for each field.

use vstd::prelude::*;
use crate::code::GeneratedCode;
use crate::expands;
use crate::record::{names_of, reprs, tokens_of, types_of, RecordDescriptor, TypeExpr};
use crate::rsdict::{elem_for, uniform};
use crate::semantics::{is_slot, lemma_slot_of, slot_of, Fatal, ValueModel};

verus! {

/// Whether no two names of a list are the same.
pub open spec fn distinct(names: Seq<Seq<char>>) -> bool {
    forall|i: int, j: int| 0 <= i < j < names.len() ==> names[i] != names[j]
}

/// `keys` returns the names of the fields in the order of the declaration.
/// It takes no instance, so what the fields hold has no part in it.
pub proof fn law_keys_in_declared_order(record: RecordDescriptor, code: GeneratedCode)
    requires
        expands(record, code),
    ensures
        code.keys.result() == names_of(record.fields@),
        code.keys.result().len() == record.fields.len(),
        forall|i: int|
            0 <= i < record.fields.len() ==> code.keys.result()[i] == record.fields[i].name@,
{
}

/// `values` returns one value for each field, in the order of `keys`: the
/// value at a position is the value of the field whose name `keys` has at
/// that position. Where no two fields have the same name, it is also what
/// `get` returns for that name.
pub proof fn law_values_align_with_keys(
    record: RecordDescriptor,
    code: GeneratedCode,
    instance: Seq<ValueModel>,
)
    requires
        expands(record, code),
        instance.len() == record.fields.len(),
    ensures
        code.values.result(instance).len() == record.fields.len(),
        code.values.result(instance).len() == code.keys.result().len(),
        forall|i: int|
            0 <= i < record.fields.len() ==> code.values.result(instance)[i] == instance[i],
        distinct(names_of(record.fields@)) ==> forall|i: int|
            0 <= i < record.fields.len() ==> code.get.result(instance, code.keys.result()[i])
                == Ok::<ValueModel, Fatal>(code.values.result(instance)[i]),
{
    let names = names_of(record.fields@);
    if distinct(names) {
        assert forall|i: int| 0 <= i < record.fields.len() implies code.get.result(
            instance,
            code.keys.result()[i],
        ) == Ok::<ValueModel, Fatal>(code.values.result(instance)[i]) by {
            assert(is_slot(names, names[i], i));
            lemma_slot_of(names, names[i]);
        }
    }
}

/// Where all fields have one type: after `set` with the name of a field and
/// a value, `get` and the subscript with that name return the value.
pub proof fn law_set_then_get(
    record: RecordDescriptor,
    code: GeneratedCode,
    instance: Seq<ValueModel>,
    key: Seq<char>,
    value: ValueModel,
)
    requires
        expands(record, code),
        uniform(reprs(types_of(record.fields@))),
        instance.len() == record.fields.len(),
        names_of(record.fields@).contains(key),
    ensures
        code.set.result(instance, key, value) matches Ok(after) && after.len() == instance.len()
            && code.get.result(after, key) == Ok::<ValueModel, Fatal>(value) && (
        code.index matches Some(ops) && ops.result(after, key) == Ok::<ValueModel, Fatal>(value)),
{
    lemma_slot_of(names_of(record.fields@), key);
}

/// Where the fields have several types: `set` with the name of a field and a
/// value of that field's type does what it does where all fields have one
/// type, so that `get` with that name returns the value; with a value of
/// another type it leaves the instance as it was.
pub proof fn law_set_of_any_type(
    record: RecordDescriptor,
    code: GeneratedCode,
    instance: Seq<ValueModel>,
    key: Seq<char>,
    value: ValueModel,
)
    requires
        expands(record, code),
        !uniform(reprs(types_of(record.fields@))),
        instance.len() == record.fields.len(),
        names_of(record.fields@).contains(key),
    ensures
        slot_of(names_of(record.fields@), key) matches Some(i) && code.set.result(
            instance,
            key,
            value,
        ) matches Ok(after) && (value.ty == record.fields[i].ty.tokens@ ==> after
            == instance.update(i, value) && code.get.result(after, key) == Ok::<ValueModel, Fatal>(
            value,
        )) && (value.ty != record.fields[i].ty.tokens@ ==> after == instance),
{
    lemma_slot_of(names_of(record.fields@), key);
}

/// `set` changes no field but the one that the key names.
pub proof fn law_set_keeps_other_fields(
    record: RecordDescriptor,
    code: GeneratedCode,
    instance: Seq<ValueModel>,
    key: Seq<char>,
    value: ValueModel,
    other: Seq<char>,
)
    requires
        expands(record, code),
        instance.len() == record.fields.len(),
        names_of(record.fields@).contains(key),
        other != key,
    ensures
        code.set.result(instance, key, value) matches Ok(after) && code.get.result(after, other)
            == code.get.result(instance, other),
{
    lemma_slot_of(names_of(record.fields@), key);
    lemma_slot_of(names_of(record.fields@), other);
}

/// A key that names no field stops every routine that takes a key: `get`,
/// `set` and both subscripts. None of them changes the instance then.
pub proof fn law_unknown_key_is_fatal(
    record: RecordDescriptor,
    code: GeneratedCode,
    instance: Seq<ValueModel>,
    key: Seq<char>,
    value: ValueModel,
)
    requires
        expands(record, code),
        !names_of(record.fields@).contains(key),
    ensures
        code.get.result(instance, key) == Err::<ValueModel, Fatal>(Fatal::UnknownKey),
        code.set.result(instance, key, value) == Err::<Seq<ValueModel>, Fatal>(Fatal::UnknownKey),
        code.index matches Some(ops) ==> ops.result(instance, key) == Err::<ValueModel, Fatal>(
            Fatal::UnknownKey,
        ) && ops.slot(key) is None,
{
    lemma_slot_of(names_of(record.fields@), key);
}

/// All routines that take a key know the same keys, the names of the fields,
/// and take each to the same field.
pub proof fn law_one_mapping_of_keys(record: RecordDescriptor, code: GeneratedCode, key: Seq<char>)
    requires
        expands(record, code),
    ensures
        code.get.slot(key) == code.set.slot(key),
        code.index matches Some(ops) ==> ops.slot(key) == code.get.slot(key),
        code.get.slot(key) is Some <==> names_of(record.fields@).contains(key),
{
    lemma_slot_of(names_of(record.fields@), key);
}

/// A record with one field counts as a record whose fields have one type,
/// whatever the type is: its routines work on values of that type, and it has
/// the subscripts.
pub proof fn law_single_field_is_uniform(types: Seq<TypeExpr>)
    requires
        types.len() == 1,
    ensures
        uniform(reprs(types)),
        elem_for(types) is Common,
{
}

/// The verdict on a record depends on nothing but the spelling of its
/// fields' types: records whose types are spelled alike get the same one.
pub proof fn law_verdict_is_by_spelling(a: Seq<TypeExpr>, b: Seq<TypeExpr>)
    requires
        reprs(a) == reprs(b),
    ensures
        uniform(reprs(a)) == uniform(reprs(b)),
{
}

} // verus!
