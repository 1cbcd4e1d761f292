//! Dictionary-like accessors for records, generated from the record's declaration.
//!
//! Given a record declaration (a name and an ordered list of named, typed
//! fields) the library produces the routines `keys`, `values`, `get` and `set`
//! for it and, where every field has the same type, the two subscript
//! operators. Each routine is produced as a small syntax tree that can be
//! written out as Rust source and that has a stated meaning on the instances
//! of the record.

use vstd::prelude::*;
use crate::code::{
    clause_text, get_source, impl_header, index_source, keys_source, set_source, values_source,
    GeneratedCode,
};
use crate::record::{
    all_named, describe, names_of, opt_text, reprs, texts, tokens_of, types_of, ExpandError,
    Generics, RawField, RecordDescriptor,
};
use crate::rsdict::{elem_for, fn_get, fn_index, fn_keys, fn_set, fn_values, uniform};
use crate::syntax::{
    declaration, error_message, member_count, member_name, member_type_span, member_type_tokens,
    members, parse_struct, span_source_text, struct_impl_generics, struct_members, struct_name,
    struct_type_generics, struct_where,
};

pub mod code;
pub mod laws;
pub mod record;
pub mod rsdict;
pub mod semantics;
pub mod syntax;

verus! {

/// Whether `code` is what is generated for `record`: each routine over the
/// record's fields in the order of the declaration, and the subscript
/// operators exactly where all fields have one type.
pub open spec fn expands(record: RecordDescriptor, code: GeneratedCode) -> bool {
    let names = names_of(record.fields@);
    let types = types_of(record.fields@);
    &&& code.target@ == record.name@
    &&& code.generics@ == record.generics@
    &&& clause_text(code.where_clause) == clause_text(record.where_clause)
    &&& texts(code.keys.names@) == names
    &&& code.values.elem@ == elem_for(types)
    &&& texts(code.values.fields@) == names
    &&& code.get.elem@ == elem_for(types)
    &&& texts(code.get.fields@) == names
    &&& code.set.wf()
    &&& code.set.elem@ == elem_for(types)
    &&& texts(code.set.fields@) == names
    &&& texts(code.set.types@) == tokens_of(types)
    &&& code.index is Some <==> uniform(reprs(types))
    &&& code.index matches Some(ops) ==> {
        &&& ops.target@ == record.name@
        &&& ops.generics@ == record.generics@
        &&& clause_text(ops.where_clause) == clause_text(record.where_clause)
        &&& ops.output@ == tokens_of(types)[0]
        &&& texts(ops.fields@) == names
    }
}

/// Whether `code` is the outcome of the expansion of `record`: nothing for a
/// record without fields, and else what [`expands`] says.
pub open spec fn expansion_of(record: RecordDescriptor, code: Option<GeneratedCode>) -> bool {
    match code {
        None => record.fields.len() == 0,
        Some(c) => record.fields.len() > 0 && expands(record, c),
    }
}

/// The source text that is generated for `record`.
pub open spec fn expansion_source(record: RecordDescriptor) -> Seq<char> {
    let names = names_of(record.fields@);
    let types = types_of(record.fields@);
    let elem = elem_for(types);
    let generics = record.generics@;
    let clause = clause_text(record.where_clause);
    if record.fields.len() == 0 {
        Seq::empty()
    } else {
        impl_header(" "@, record.name@, generics, clause) + " { "@ + keys_source(names) + " "@
            + values_source(elem, names) + " "@ + get_source(elem, names) + " "@ + set_source(
            elem,
            names,
            tokens_of(types),
        ) + " } "@ + (if uniform(reprs(types)) {
            index_source(record.name@, generics, clause, tokens_of(types)[0], names)
        } else {
            Seq::empty()
        })
    }
}

/// The source text of the outcome of an expansion.
pub open spec fn source_of(code: Option<GeneratedCode>) -> Seq<char> {
    match code {
        Some(c) => c.source(),
        None => Seq::empty(),
    }
}

/// Writes the outcome of an expansion out as Rust source.
pub fn generated_source(code: &Option<GeneratedCode>) -> (text: String)
    ensures
        text@ == source_of(*code),
{
    match code {
        Some(c) => c.to_source(),
        None => String::new(),
    }
}

/// Generates the code for a record. A record without fields gets none.
pub fn expand(record: &RecordDescriptor) -> (code: Option<GeneratedCode>)
    ensures
        expansion_of(*record, code),
        source_of(code) == expansion_source(*record),
{
    let struct_iden = record.idents();
    let struct_type = record.types();
    if struct_type.len() == 0 {
        return None;
    }
    let keys = fn_keys(&struct_iden);
    let values = fn_values(&struct_iden, &struct_type);
    let get = fn_get(&struct_iden, &struct_type);
    let set = fn_set(&struct_iden, &struct_type);
    let index = fn_index(
        record.name.as_str(),
        &struct_iden,
        &struct_type,
        &record.generics,
        &record.where_clause,
    );
    let where_clause = match &record.where_clause {
        Some(text) => Some(text.clone()),
        None => None,
    };
    let code = GeneratedCode {
        target: record.name.clone(),
        generics: record.generics.duplicate(),
        where_clause,
        keys,
        values,
        get,
        set,
        index,
    };
    Some(code)
}

/// Reads the fields that a parsed declaration holds: one raw field for each,
/// in the order of the declaration, with the field's name and the tokens of
/// its type. The spelling of the type is what the tokens' place in the source
/// gives, if it gives any.
fn read_fields(fields: &syn::Fields) -> (raw: Vec<RawField>)
    ensures
        raw.len() == members(*fields).len(),
        forall|i: int|
            0 <= i < raw.len() ==> {
                &&& opt_text((#[trigger] raw[i]).name) == members(*fields)[i].0
                &&& raw[i].tokens@ == members(*fields)[i].1
            },
{
    let count = member_count(fields);
    let mut raw: Vec<RawField> = Vec::new();
    let mut i: usize = 0;
    while i < count
        invariant
            0 <= i <= count,
            count == members(*fields).len(),
            raw.len() == i,
            forall|k: int|
                0 <= k < i ==> {
                    &&& opt_text((#[trigger] raw[k]).name) == members(*fields)[k].0
                    &&& raw[k].tokens@ == members(*fields)[k].1
                },
        decreases count - i,
    {
        let name = member_name(fields, i);
        // Below the count every position holds a field, so both are `Some`.
        let tokens = match member_type_tokens(fields, i) {
            Some(tokens) => tokens,
            None => String::new(),
        };
        let source = match member_type_span(fields, i) {
            Some(span) => span_source_text(&span),
            None => None,
        };
        raw.push(RawField { name, tokens, source });
        i += 1;
    }
    raw
}

/// Whether every field that a declaration holds has a name.
pub open spec fn all_have_names(held: Seq<(Option<Seq<char>>, Seq<char>)>) -> bool {
    forall|i: int| 0 <= i < held.len() ==> (#[trigger] held[i]).0 is Some
}

/// Whether `record` is the record that a declaration with these parts
/// declares: it has the declaration's name, generic parameters and `where`
/// clause, and its fields are the fields that the declaration holds, in their
/// order, each with its name and the tokens of its type.
pub open spec fn declares(
    name: Seq<char>,
    generics: (Seq<char>, Seq<char>),
    where_clause: Option<Seq<char>>,
    held: Seq<(Option<Seq<char>>, Seq<char>)>,
    record: RecordDescriptor,
) -> bool {
    &&& record.name@ == name
    &&& record.generics@ == generics
    &&& opt_text(record.where_clause) == where_clause
    &&& record.fields.len() == held.len()
    &&& forall|i: int|
        0 <= i < held.len() ==> {
            &&& (#[trigger] held[i]).0 == Some(record.fields[i].name@)
            &&& held[i].1 == record.fields[i].ty.tokens@
        }
}

/// Generates the code for a parsed declaration, given by its name, its
/// generic parameters, its `where` clause and its fields.
///
/// The outcome is `Err` exactly where a field has no name. Else it is the
/// code that [`expand`] generates for the record that the parts declare:
/// nothing where there is no field.
pub fn expand_declared(
    name: String,
    generics: Generics,
    where_clause: Option<String>,
    fields: &syn::Fields,
) -> (out: Result<Option<GeneratedCode>, ExpandError>)
    ensures
        out is Ok <==> all_have_names(members(*fields)),
        out matches Err(e) ==> e is UnnamedField,
        out matches Ok(code) ==> (code is None <==> members(*fields).len() == 0),
        out matches Ok(code) ==> exists|record: RecordDescriptor|
            {
                &&& declares(name@, generics@, opt_text(where_clause), members(*fields), record)
                &&& #[trigger] expansion_of(record, code)
                &&& source_of(code) == expansion_source(record)
            },
{
    let raw = read_fields(fields);
    let ghost held = members(*fields);
    proof {
        if all_named(raw@) {
            assert forall|i: int| 0 <= i < held.len() implies (#[trigger] held[i]).0 is Some by {
                assert(raw@[i].name is Some);
            }
        }
        if all_have_names(held) {
            assert forall|i: int| 0 <= i < raw.len() implies (#[trigger] raw@[i]).name is Some by {
                assert(held[i].0 is Some);
            }
        }
    }
    match describe(name, generics, where_clause, &raw) {
        Err(error) => Err(error),
        Ok(record) => {
            let code = expand(&record);
            proof {
                assert forall|i: int| 0 <= i < held.len() implies {
                    &&& (#[trigger] held[i]).0 == Some(record.fields[i].name@)
                    &&& held[i].1 == record.fields[i].ty.tokens@
                } by {
                    assert(opt_text(raw@[i].name) == Some(record.fields@[i].name@));
                }
                assert(declares(name@, generics@, opt_text(where_clause), held, record));
                assert(expansion_of(record, code));
            }
            Ok(code)
        },
    }
}

/// Reads the declaration of a record and generates the code for it.
///
/// Tokens that are not the declaration of a record are refused as
/// `Malformed`, and a declaration with a field that has no name as
/// `UnnamedField`. Every other declaration gets the code that [`expand`]
/// generates for the record that it declares: nothing where the record has no
/// field.
///
/// How a field's type is spelled is read from the place of its tokens in the
/// source. Tokens that no source stands behind, as all tokens made outside a
/// macro, have no spelling, and types without a spelling all compare alike.
pub fn derive_rustdict(input: proc_macro2::TokenStream) -> (out: Result<
    Option<GeneratedCode>,
    ExpandError,
>)
    ensures
        match declaration(input) {
            None => out matches Err(e) && e is Malformed,
            Some(parts) => {
                &&& out is Ok <==> all_have_names(parts.4)
                &&& out matches Err(e) ==> e is UnnamedField
                &&& out matches Ok(code) ==> (code is None <==> parts.4.len() == 0)
                &&& out matches Ok(code) ==> exists|record: RecordDescriptor|
                    {
                        &&& declares(parts.0, (parts.1, parts.2), parts.3, parts.4, record)
                        &&& #[trigger] expansion_of(record, code)
                        &&& source_of(code) == expansion_source(record)
                    }
            },
        },
{
    match parse_struct(input) {
        Err(error) => Err(ExpandError::Malformed(error_message(&error))),
        Ok(item) => {
            let generics = Generics {
                params: struct_impl_generics(&item),
                args: struct_type_generics(&item),
            };
            expand_declared(
                struct_name(&item),
                generics,
                struct_where(&item),
                struct_members(&item),
            )
        },
    }
}

} // verus!
