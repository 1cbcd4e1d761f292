//! The synthesizers: one function for each routine that is generated.

use vstd::prelude::*;
use crate::code::{clause_text, Elem, ElemModel, GetFn, IndexOps, KeysFn, SetFn, ValuesFn};
use crate::record::{reprs, texts, tokens_of, Generics, TypeExpr};

verus! {

/// Whether a list of comparison texts counts as one type: it does when it has
/// fewer than two entries, or when all its entries are the same text.
pub open spec fn uniform(reprs: Seq<Seq<char>>) -> bool {
    reprs.len() < 2 || forall|i: int, j: int|
        0 <= i < reprs.len() && 0 <= j < reprs.len() ==> reprs[i] == reprs[j]
}

/// The verdict on the types of a record's fields.
#[derive(Clone, Copy, Debug, PartialEq, Eq, Structural)]
pub enum UniformityVerdict {
    /// All fields have one type.
    Uniform,
    /// The fields have several types.
    Mixed,
}

/// Classifies the types of a record's fields. The comparison is by spelling:
/// two spellings of one type count as different types. Fewer than two types
/// are always uniform.
pub fn classify(types: &Vec<TypeExpr>) -> (verdict: UniformityVerdict)
    ensures
        verdict is Uniform <==> uniform(reprs(types@)),
        types.len() < 2 ==> verdict is Uniform,
{
    if types.len() < 2 {
        return UniformityVerdict::Uniform;
    }
    let first = types[0].representation();
    let mut i: usize = 1;
    while i < types.len()
        invariant
            1 <= i <= types.len(),
            first@ == reprs(types@)[0],
            forall|k: int| 0 <= k < i ==> reprs(types@)[k] == first@,
        decreases types.len() - i,
    {
        let other = types[i].representation();
        if other != first {
            assert(reprs(types@)[i as int] != reprs(types@)[0]);
            return UniformityVerdict::Mixed;
        }
        i += 1;
    }
    UniformityVerdict::Uniform
}

/// Whether all fields of a record have the same type: whether the verdict of
/// [`classify`] is `Uniform`.
pub fn is_one_type(types: &Vec<TypeExpr>) -> (one: bool)
    ensures
        one == uniform(reprs(types@)),
        types.len() < 2 ==> one,
{
    match classify(types) {
        UniformityVerdict::Uniform => true,
        UniformityVerdict::Mixed => false,
    }
}

/// What the routines of a record hand out for a field's value: a value of the
/// first field's type where all fields have one type, and a value of any type
/// where they have not.
pub open spec fn elem_for(types: Seq<TypeExpr>) -> ElemModel {
    if uniform(reprs(types)) {
        ElemModel::Common(tokens_of(types)[0])
    } else {
        ElemModel::Any
    }
}

/// Computes [`elem_for`].
pub fn common_elem(types: &Vec<TypeExpr>) -> (elem: Elem)
    requires
        types.len() > 0,
    ensures
        elem@ == elem_for(types@),
        types.len() == 1 ==> elem is Common,
{
    if is_one_type(types) {
        Elem::Common(types[0].tokens.clone())
    } else {
        Elem::Any
    }
}

/// A copy of a list of names.
pub fn copy_names(names: &Vec<String>) -> (copy: Vec<String>)
    ensures
        copy.len() == names.len(),
        texts(copy@) == texts(names@),
{
    let mut copy: Vec<String> = Vec::new();
    let mut i: usize = 0;
    while i < names.len()
        invariant
            0 <= i <= names.len(),
            copy.len() == i,
            forall|k: int| 0 <= k < i ==> copy@[k]@ == names@[k]@,
        decreases names.len() - i,
    {
        copy.push(names[i].clone());
        i += 1;
    }
    assert(texts(copy@) =~= texts(names@));
    copy
}

/// The tokens of each type of a list.
pub fn type_tokens(types: &Vec<TypeExpr>) -> (tokens: Vec<String>)
    ensures
        tokens.len() == types.len(),
        texts(tokens@) == tokens_of(types@),
{
    let mut tokens: Vec<String> = Vec::new();
    let mut i: usize = 0;
    while i < types.len()
        invariant
            0 <= i <= types.len(),
            tokens.len() == i,
            forall|k: int| 0 <= k < i ==> tokens@[k]@ == types@[k].tokens@,
        decreases types.len() - i,
    {
        tokens.push(types[i].tokens.clone());
        i += 1;
    }
    assert(texts(tokens@) =~= tokens_of(types@));
    tokens
}

/// Generates `keys`, which lists the names of the fields in the order of the
/// declaration.
pub fn fn_keys(struct_iden: &Vec<String>) -> (keys: KeysFn)
    ensures
        texts(keys.names@) == texts(struct_iden@),
        keys.result() == texts(struct_iden@),
{
    KeysFn { names: copy_names(struct_iden) }
}

/// Generates `values`, which lists the values of the fields in the order of
/// the declaration: as values of the common type where the fields have one,
/// and as values of any type where they have not.
pub fn fn_values(struct_iden: &Vec<String>, struct_type: &Vec<TypeExpr>) -> (values: ValuesFn)
    requires
        struct_type.len() > 0,
    ensures
        values.elem@ == elem_for(struct_type@),
        texts(values.fields@) == texts(struct_iden@),
{
    ValuesFn { elem: common_elem(struct_type), fields: copy_names(struct_iden) }
}

/// Generates `get`, which hands out the value of the field that a key names,
/// and stops the program on a key that names no field.
pub fn fn_get(struct_iden: &Vec<String>, struct_type: &Vec<TypeExpr>) -> (get: GetFn)
    requires
        struct_type.len() > 0,
    ensures
        get.elem@ == elem_for(struct_type@),
        texts(get.fields@) == texts(struct_iden@),
{
    GetFn { elem: common_elem(struct_type), fields: copy_names(struct_iden) }
}

/// Generates `set`, which assigns a value to the field that a key names, and
/// stops the program on a key that names no field. Where the fields have
/// several types, `set` takes a value of any type and leaves the field as it
/// is when the value is not of the field's type.
pub fn fn_set(struct_iden: &Vec<String>, struct_type: &Vec<TypeExpr>) -> (set: SetFn)
    requires
        struct_type.len() > 0,
        struct_iden.len() == struct_type.len(),
    ensures
        set.wf(),
        set.elem@ == elem_for(struct_type@),
        texts(set.fields@) == texts(struct_iden@),
        texts(set.types@) == tokens_of(struct_type@),
{
    SetFn {
        elem: common_elem(struct_type),
        fields: copy_names(struct_iden),
        types: type_tokens(struct_type),
    }
}

/// Generates the two subscript operators where all fields have one type, and
/// nothing where they have not.
pub fn fn_index(
    struct_name: &str,
    struct_iden: &Vec<String>,
    struct_type: &Vec<TypeExpr>,
    struct_gene: &Generics,
    struct_where: &Option<String>,
) -> (index: Option<IndexOps>)
    requires
        struct_type.len() > 0,
    ensures
        index is Some <==> uniform(reprs(struct_type@)),
        index matches Some(ops) ==> {
            &&& ops.target@ == struct_name@
            &&& ops.generics@ == struct_gene@
            &&& clause_text(ops.where_clause) == clause_text(*struct_where)
            &&& ops.output@ == tokens_of(struct_type@)[0]
            &&& texts(ops.fields@) == texts(struct_iden@)
        },
{
    if is_one_type(struct_type) {
        let where_clause = match struct_where {
            Some(text) => Some(text.clone()),
            None => None,
        };
        Some(
            IndexOps {
                target: struct_name.to_owned(),
                generics: struct_gene.duplicate(),
                where_clause,
                output: struct_type[0].tokens.clone(),
                fields: copy_names(struct_iden),
            },
        )
    } else {
        None
    }
}

} // verus!
