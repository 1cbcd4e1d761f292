//! Descriptors of a record declaration: its fields and their type expressions.

use vstd::prelude::*;

verus! {

/// The declared type of a field.
#[derive(Debug, PartialEq, Eq)]
pub struct TypeExpr {
    /// The tokens of the type expression, as they are written into generated code.
    pub tokens: String,
    /// The type expression as the declaration spells it, where that text could be had.
    pub source: Option<String>,
}

impl TypeExpr {
    /// The text by which two type expressions are compared: the spelling in
    /// the declaration, or the word `None` where there is no such text.
    pub open spec fn repr(self) -> Seq<char> {
        match self.source {
            Some(text) => text@,
            None => "None"@,
        }
    }

    /// Computes [`TypeExpr::repr`].
    pub fn representation(&self) -> (text: String)
        ensures
            text@ == self.repr(),
    {
        match &self.source {
            Some(text) => text.clone(),
            None => "None".to_owned(),
        }
    }
}

/// The characters of each string of a sequence.
pub open spec fn texts(items: Seq<String>) -> Seq<Seq<char>> {
    items.map_values(|s: String| s@)
}

/// The comparison text of each type expression of a sequence.
pub open spec fn reprs(types: Seq<TypeExpr>) -> Seq<Seq<char>> {
    types.map_values(|t: TypeExpr| t.repr())
}

/// The tokens of each type expression of a sequence.
pub open spec fn tokens_of(types: Seq<TypeExpr>) -> Seq<Seq<char>> {
    types.map_values(|t: TypeExpr| t.tokens@)
}

/// The characters of an optional string.
pub open spec fn opt_text(text: Option<String>) -> Option<Seq<char>> {
    match text {
        Some(t) => Some(t@),
        None => None,
    }
}

/// The generic parameters of a record, in the two forms that an `impl` block
/// for the record takes. Both are empty for a record without parameters.
#[derive(Debug, PartialEq, Eq)]
pub struct Generics {
    /// The parameters with their bounds, in angle brackets, as they stand
    /// behind the word `impl`.
    pub params: String,
    /// The names of the parameters, in angle brackets, as they stand behind
    /// the record's name.
    pub args: String,
}

impl View for Generics {
    type V = (Seq<char>, Seq<char>);

    open spec fn view(&self) -> (Seq<char>, Seq<char>) {
        (self.params@, self.args@)
    }
}

impl Generics {
    /// A copy of the two texts.
    pub fn duplicate(&self) -> (copy: Generics)
        ensures
            copy@ == self@,
    {
        Generics { params: self.params.clone(), args: self.args.clone() }
    }
}

/// One declared field of a record.
#[derive(Debug, PartialEq, Eq)]
pub struct FieldDescriptor {
    /// The field's name.
    pub name: String,
    /// The field's declared type.
    pub ty: TypeExpr,
}

/// A record declaration. The order of the fields is that of the declaration.
/// The language in which the record is declared lets no two fields have the
/// same name; nothing here depends on it.
#[derive(Debug, PartialEq, Eq)]
pub struct RecordDescriptor {
    /// The record's name.
    pub name: String,
    /// The record's generic parameters.
    pub generics: Generics,
    /// The record's `where` clause.
    pub where_clause: Option<String>,
    /// The declared fields.
    pub fields: Vec<FieldDescriptor>,
}

/// The name of each field of a sequence.
pub open spec fn names_of(fields: Seq<FieldDescriptor>) -> Seq<Seq<char>> {
    fields.map_values(|f: FieldDescriptor| f.name@)
}

/// The type of each field of a sequence.
pub open spec fn types_of(fields: Seq<FieldDescriptor>) -> Seq<TypeExpr> {
    fields.map_values(|f: FieldDescriptor| f.ty)
}

/// A field as a declaration has it before its name is known to exist: the
/// fields of a record that is written with round brackets have none.
#[derive(Debug, PartialEq, Eq)]
pub struct RawField {
    /// The field's name, if it has one.
    pub name: Option<String>,
    /// The tokens of the field's type.
    pub tokens: String,
    /// The field's type as the declaration spells it, where that text could be had.
    pub source: Option<String>,
}

/// Why no code was generated for a declaration.
#[derive(Debug, PartialEq, Eq)]
pub enum ExpandError {
    /// The input is not the declaration of a record. The text says why.
    Malformed(String),
    /// A field of the record has no name.
    UnnamedField,
}

/// Whether `fields` are the raw fields `raw`, each under its name.
pub open spec fn describes(fields: Seq<FieldDescriptor>, raw: Seq<RawField>) -> bool {
    &&& fields.len() == raw.len()
    &&& forall|i: int|
        0 <= i < raw.len() ==> {
            &&& opt_text(raw[i].name) == Some((#[trigger] fields[i]).name@)
            &&& fields[i].ty.tokens@ == raw[i].tokens@
            &&& opt_text(fields[i].ty.source) == opt_text(raw[i].source)
        }
}

/// Whether every raw field has a name.
pub open spec fn all_named(raw: Seq<RawField>) -> bool {
    forall|i: int| 0 <= i < raw.len() ==> (#[trigger] raw[i]).name is Some
}

/// Makes the descriptor of a record from the parts of its declaration. A
/// record with a field that has no name is refused.
pub fn describe(
    name: String,
    generics: Generics,
    where_clause: Option<String>,
    raw: &Vec<RawField>,
) -> (out: Result<RecordDescriptor, ExpandError>)
    ensures
        out is Ok <==> all_named(raw@),
        out matches Err(e) ==> e is UnnamedField,
        out matches Ok(record) ==> {
            &&& record.name@ == name@
            &&& record.generics@ == generics@
            &&& opt_text(record.where_clause) == opt_text(where_clause)
            &&& describes(record.fields@, raw@)
        },
{
    let mut fields: Vec<FieldDescriptor> = Vec::new();
    let mut i: usize = 0;
    while i < raw.len()
        invariant
            0 <= i <= raw.len(),
            fields.len() == i,
            describes(fields@, raw@.take(i as int)),
        decreases raw.len() - i,
    {
        let field = &raw[i];
        match &field.name {
            None => {
                return Err(ExpandError::UnnamedField);
            },
            Some(text) => {
                let source = match &field.source {
                    Some(spelled) => Some(spelled.clone()),
                    None => None,
                };
                fields.push(
                    FieldDescriptor {
                        name: text.clone(),
                        ty: TypeExpr { tokens: field.tokens.clone(), source },
                    },
                );
            },
        }
        i += 1;
    }
    assert(raw@.take(i as int) =~= raw@);
    assert(all_named(raw@)) by {
        assert forall|k: int| 0 <= k < raw.len() implies (#[trigger] raw@[k]).name is Some by {
            assert(opt_text(raw@[k].name) == Some(fields@[k].name@));
        }
    }
    Ok(RecordDescriptor { name, generics, where_clause, fields })
}

impl RecordDescriptor {
    /// The names of the fields, in the order of the declaration.
    pub fn idents(&self) -> (names: Vec<String>)
        ensures
            names.len() == self.fields.len(),
            texts(names@) == names_of(self.fields@),
    {
        let mut names: Vec<String> = Vec::new();
        let mut i: usize = 0;
        while i < self.fields.len()
            invariant
                0 <= i <= self.fields.len(),
                names.len() == i,
                forall|k: int| 0 <= k < i ==> names@[k]@ == self.fields@[k].name@,
            decreases self.fields.len() - i,
        {
            names.push(self.fields[i].name.clone());
            i += 1;
        }
        assert(texts(names@) =~= names_of(self.fields@));
        names
    }

    /// The types of the fields, in the order of the declaration.
    pub fn types(&self) -> (types: Vec<TypeExpr>)
        ensures
            types.len() == self.fields.len(),
            reprs(types@) == reprs(types_of(self.fields@)),
            tokens_of(types@) == tokens_of(types_of(self.fields@)),
    {
        let mut types: Vec<TypeExpr> = Vec::new();
        let mut i: usize = 0;
        while i < self.fields.len()
            invariant
                0 <= i <= self.fields.len(),
                types.len() == i,
                forall|k: int|
                    0 <= k < i ==> types@[k].tokens@ == self.fields@[k].ty.tokens@ && types@[k].repr()
                        == self.fields@[k].ty.repr(),
            decreases self.fields.len() - i,
        {
            let ty = &self.fields[i].ty;
            let source = match &ty.source {
                Some(spelled) => Some(spelled.clone()),
                None => None,
            };
            types.push(TypeExpr { tokens: ty.tokens.clone(), source });
            i += 1;
        }
        assert(reprs(types@) =~= reprs(types_of(self.fields@)));
        assert(tokens_of(types@) =~= tokens_of(types_of(self.fields@)));
        types
    }
}

} // verus!
