//! The calls into the crates that read Rust syntax: `syn`, `quote` and
//! `proc_macro2`. Nothing in this file is proved: each contract is taken from
//! the source of the function that is called.

use vstd::prelude::*;
use quote::ToTokens;
use syn::spanned::Spanned;
use crate::record::opt_text;

verus! {

#[verifier::external_type_specification]
#[verifier::external_body]
pub struct ExTokenStream(proc_macro2::TokenStream);

#[verifier::external_type_specification]
#[verifier::external_body]
pub struct ExItemStruct(syn::ItemStruct);

#[verifier::external_type_specification]
#[verifier::external_body]
pub struct ExSynError(syn::Error);

#[verifier::external_type_specification]
#[verifier::external_body]
pub struct ExFields(syn::Fields);

#[verifier::external_type_specification]
#[verifier::external_body]
pub struct ExSpan(proc_macro2::Span);

/// What a `syn::Fields` holds: of each field, in the order of the
/// declaration, its name, if it has one, and the tokens of its type, both as
/// the text that `to_string` gives. How the types are spelled in the source is
/// no part of it: that depends on where the tokens come from.
pub uninterp spec fn members(fields: syn::Fields) -> Seq<(Option<Seq<char>>, Seq<char>)>;

/// What a parsed declaration of a record holds, as text: the record's name;
/// its generic parameters with their bounds, as they stand behind `impl`; the
/// names of the parameters, as they stand behind the record's name; the
/// `where` clause, if there is one; and the fields, as [`members`] has them.
pub uninterp spec fn item_parts(item: syn::ItemStruct) -> (
    Seq<char>,
    Seq<char>,
    Seq<char>,
    Option<Seq<char>>,
    Seq<(Option<Seq<char>>, Seq<char>)>,
);

/// What `syn::parse2` reads out of a stream of tokens when it is asked for
/// the declaration of a record: the parts of the declaration, or nothing
/// where the tokens are no such declaration.
pub uninterp spec fn declaration(input: proc_macro2::TokenStream) -> Option<
    (Seq<char>, Seq<char>, Seq<char>, Option<Seq<char>>, Seq<(Option<Seq<char>>, Seq<char>)>),
>;

/// Calls `syn::parse2` for a `syn::ItemStruct`: the tokens are read as the
/// declaration of a record. The parser's answer depends on the tokens alone;
/// it is an error exactly where the tokens are no such declaration.
#[verifier::external_body]
pub(crate) fn parse_struct(input: proc_macro2::TokenStream) -> (parsed: Result<
    syn::ItemStruct,
    syn::Error,
>)
    ensures
        match parsed {
            Ok(item) => declaration(input) == Some(item_parts(item)),
            Err(_) => declaration(input) is None,
        },
{
    syn::parse2::<syn::ItemStruct>(input)
}

/// Calls `to_string` on a `syn::Error`, which gives the error's message.
/// Nothing is claimed of the text.
#[verifier::external_body]
pub(crate) fn error_message(error: &syn::Error) -> (message: String) {
    error.to_string()
}

/// Calls `to_string` on the record's `proc_macro2::Ident`, which gives the
/// record's name.
#[verifier::external_body]
pub(crate) fn struct_name(item: &syn::ItemStruct) -> (name: String)
    ensures
        name@ == item_parts(*item).0,
{
    item.ident.to_string()
}

/// Calls `syn::Generics::split_for_impl` on the record's generic parameters
/// and prints the first part: the parameters with their bounds and without
/// their defaults, in angle brackets, or nothing where there are none.
#[verifier::external_body]
pub(crate) fn struct_impl_generics(item: &syn::ItemStruct) -> (params: String)
    ensures
        params@ == item_parts(*item).1,
{
    item.generics.split_for_impl().0.to_token_stream().to_string()
}

/// Calls `syn::Generics::split_for_impl` on the record's generic parameters
/// and prints the second part: the names of the parameters, in angle
/// brackets, or nothing where there are none.
#[verifier::external_body]
pub(crate) fn struct_type_generics(item: &syn::ItemStruct) -> (args: String)
    ensures
        args@ == item_parts(*item).2,
{
    item.generics.split_for_impl().1.to_token_stream().to_string()
}

/// Calls `quote::ToTokens::to_token_stream` on the record's
/// `syn::WhereClause`, where it has one, and prints the tokens.
#[verifier::external_body]
pub(crate) fn struct_where(item: &syn::ItemStruct) -> (where_clause: Option<String>)
    ensures
        opt_text(where_clause) == item_parts(*item).3,
{
    item.generics.where_clause.as_ref().map(|clause| clause.to_token_stream().to_string())
}

/// Picks the fields of a parsed declaration.
#[verifier::external_body]
pub(crate) fn struct_members(item: &syn::ItemStruct) -> (fields: &syn::Fields)
    ensures
        members(*fields) == item_parts(*item).4,
{
    &item.fields
}

/// Calls `syn::Fields::len`, which gives the number of fields.
#[verifier::external_body]
pub(crate) fn member_count(fields: &syn::Fields) -> (count: usize)
    ensures
        count == members(*fields).len(),
{
    fields.len()
}

/// Takes the field at position `i` from `syn::Fields::iter` and calls
/// `to_string` on its `proc_macro2::Ident`, where it has one. For a position
/// below the number of fields this is the name of that field.
#[verifier::external_body]
pub(crate) fn member_name(fields: &syn::Fields, i: usize) -> (name: Option<String>)
    ensures
        i < members(*fields).len() ==> opt_text(name) == members(*fields)[i as int].0,
{
    fields.iter().nth(i).and_then(|field| field.ident.as_ref()).map(|ident| ident.to_string())
}

/// Takes the field at position `i` from `syn::Fields::iter`, calls
/// `quote::ToTokens::to_token_stream` on its `syn::Type` and prints the
/// tokens. For a position below the number of fields there is such a field,
/// and the text is that of its type.
#[verifier::external_body]
pub(crate) fn member_type_tokens(fields: &syn::Fields, i: usize) -> (tokens: Option<String>)
    ensures
        i < members(*fields).len() ==> opt_text(tokens) == Some(members(*fields)[i as int].1),
{
    fields.iter().nth(i).map(|field| field.ty.to_token_stream().to_string())
}

/// Takes the field at position `i` from `syn::Fields::iter` and calls
/// `syn::spanned::Spanned::span` on its `syn::Type`, which gives the span from
/// the first token of the type to its last where the two can be joined and
/// that of the first token where they cannot. Nothing is claimed of the span.
#[verifier::external_body]
pub(crate) fn member_type_span(fields: &syn::Fields, i: usize) -> (span: Option<
    proc_macro2::Span,
>) {
    fields.iter().nth(i).map(|field| field.ty.span())
}

/// Calls `proc_macro2::Span::source_text`, which gives the source text behind
/// a span where the span stands for source text that can be had: inside a
/// macro the compiler says, and outside of one there is none. Nothing is
/// claimed of the outcome.
#[verifier::external_body]
pub(crate) fn span_source_text(span: &proc_macro2::Span) -> (text: Option<String>) {
    span.source_text()
}

} // verus!
