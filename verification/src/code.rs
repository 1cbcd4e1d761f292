//! The generated routines as syntax trees, and how each is written out as
//! Rust source.

use vstd::prelude::*;
use vstd::string::StringExecFns;
use crate::record::{texts, Generics};

verus! {

/// The form of the part of a routine that is written once for each field.
#[derive(Clone, Copy, Debug, PartialEq, Eq, Structural)]
pub enum Piece {
    /// The field's name as a string: `stringify!(f)`.
    Key,
    /// A reference to the field: `&self.f`.
    Ref,
    /// A match arm that hands out a reference to the field.
    Read,
    /// A match arm that hands out a mutable reference to the field.
    Write,
    /// A match arm that assigns the value to the field.
    Assign,
    /// A match arm that assigns the value to the field where the value is of
    /// the field's type, and does nothing where it is not.
    Downcast,
}

/// The source text of one piece, for a field `f` of type `t`.
pub open spec fn piece(kind: Piece, f: Seq<char>, t: Seq<char>) -> Seq<char> {
    match kind {
        Piece::Key => "stringify!("@ + f + ")"@,
        Piece::Ref => "&self."@ + f,
        Piece::Read => "stringify!("@ + f + ") => &self."@ + f,
        Piece::Write => "stringify!("@ + f + ") => &mut self."@ + f,
        Piece::Assign => "stringify!("@ + f + ") => { self."@ + f + " = value; }"@,
        Piece::Downcast => "stringify!("@ + f + ") => { if let Some(value) = value.downcast_ref::<"@
            + t + ">() { self."@ + f + ".clone_from(value); } }"@,
    }
}

/// The type at position `i` of `types`, or the empty text where there is none.
pub open spec fn type_at(types: Seq<Seq<char>>, i: int) -> Seq<char> {
    if 0 <= i < types.len() {
        types[i]
    } else {
        ""@
    }
}

/// What stands before the piece at position `i`.
pub open spec fn lead(closed: bool, i: int) -> Seq<char> {
    if !closed && i > 0 {
        ", "@
    } else {
        ""@
    }
}

/// What stands behind each piece.
pub open spec fn tail(closed: bool) -> Seq<char> {
    if closed {
        ", "@
    } else {
        ""@
    }
}

/// The pieces of the first `n` fields, in order. With `closed` each piece is
/// followed by `, `; without it the pieces are separated by `, `.
pub open spec fn series(
    kind: Piece,
    fields: Seq<Seq<char>>,
    types: Seq<Seq<char>>,
    closed: bool,
    n: nat,
) -> Seq<char>
    decreases n,
{
    if n == 0 {
        Seq::empty()
    } else {
        let i = (n - 1) as int;
        series(kind, fields, types, closed, (n - 1) as nat) + lead(closed, i) + piece(
            kind,
            fields[i],
            type_at(types, i),
        ) + tail(closed)
    }
}

/// Text that is appended in three steps is appended as a whole.
proof fn lemma_appended(start: Seq<char>, done: Seq<char>, a: Seq<char>, b: Seq<char>, c: Seq<char>)
    ensures
        start + done + a + b + c == start + (done + a + b + c),
{
    assert(start + done + a + b + c =~= start + (done + a + b + c));
}

/// Appends one piece to `out`.
pub fn write_piece(out: &mut String, kind: Piece, f: &str, t: &str)
    ensures
        final(out)@ == old(out)@ + piece(kind, f@, t@),
{
    let ghost start = out@;
    match kind {
        Piece::Key => {
            out.append("stringify!(");
            out.append(f);
            out.append(")");
        },
        Piece::Ref => {
            out.append("&self.");
            out.append(f);
        },
        Piece::Read => {
            out.append("stringify!(");
            out.append(f);
            out.append(") => &self.");
            out.append(f);
        },
        Piece::Write => {
            out.append("stringify!(");
            out.append(f);
            out.append(") => &mut self.");
            out.append(f);
        },
        Piece::Assign => {
            out.append("stringify!(");
            out.append(f);
            out.append(") => { self.");
            out.append(f);
            out.append(" = value; }");
        },
        Piece::Downcast => {
            out.append("stringify!(");
            out.append(f);
            out.append(") => { if let Some(value) = value.downcast_ref::<");
            out.append(t);
            out.append(">() { self.");
            out.append(f);
            out.append(".clone_from(value); } }");
        },
    }
    assert(out@ =~= start + piece(kind, f@, t@));
}

/// Appends the pieces of all fields to `out`.
pub fn write_series(
    out: &mut String,
    kind: Piece,
    fields: &Vec<String>,
    types: &Vec<String>,
    closed: bool,
)
    ensures
        final(out)@ == old(out)@ + series(
            kind,
            texts(fields@),
            texts(types@),
            closed,
            fields@.len(),
        ),
{
    let ghost start = out@;
    let ghost fs = texts(fields@);
    let ghost ts = texts(types@);
    let mut i: usize = 0;
    assert(out@ =~= start + series(kind, fs, ts, closed, 0));
    while i < fields.len()
        invariant
            0 <= i <= fields.len(),
            fs == texts(fields@),
            ts == texts(types@),
            out@ == start + series(kind, fs, ts, closed, i as nat),
        decreases fields.len() - i,
    {
        let before: &str = if !closed && i > 0 {
            ", "
        } else {
            ""
        };
        let ty: &str = if i < types.len() {
            types[i].as_str()
        } else {
            ""
        };
        let behind: &str = if closed {
            ", "
        } else {
            ""
        };
        out.append(before);
        write_piece(out, kind, fields[i].as_str(), ty);
        out.append(behind);
        proof {
            let done = series(kind, fs, ts, closed, i as nat);
            let item = piece(kind, fs[i as int], type_at(ts, i as int));
            assert(before@ == lead(closed, i as int));
            assert(ty@ == type_at(ts, i as int));
            assert(behind@ == tail(closed));
            assert(fields[i as int]@ == fs[i as int]);
            lemma_appended(start, done, before@, item, behind@);
            assert(series(kind, fs, ts, closed, (i + 1) as nat) == done + before@ + item + behind@);
        }
        i += 1;
    }
}

/// What a routine hands out, or takes, for a field's value.
#[derive(Debug, PartialEq, Eq)]
pub enum Elem {
    /// A value of the one type that all fields have.
    Common(String),
    /// A value of any type, whose type is found out when the routine runs.
    Any,
}

/// The mathematical form of an [`Elem`].
pub enum ElemModel {
    Common(Seq<char>),
    Any,
}

impl View for Elem {
    type V = ElemModel;

    open spec fn view(&self) -> ElemModel {
        match self {
            Elem::Common(t) => ElemModel::Common(t@),
            Elem::Any => ElemModel::Any,
        }
    }
}

/// The type that stands for a field's value in a signature.
pub open spec fn elem_text(elem: ElemModel) -> Seq<char> {
    match elem {
        ElemModel::Common(t) => t,
        ElemModel::Any => "dyn ::core::any::Any"@,
    }
}

/// The text of an optional clause: nothing where there is none.
pub open spec fn clause_text(clause: Option<String>) -> Seq<char> {
    match clause {
        Some(text) => text@,
        None => Seq::empty(),
    }
}

/// The match arm that every keyed routine ends in: it stops the program.
pub open spec fn fallback() -> Seq<char> {
    "_ => panic!(\"不存在的key\")"@
}

/// The source text of `keys`.
pub open spec fn keys_source(names: Seq<Seq<char>>) -> Seq<char> {
    "pub fn keys() -> Vec<&'static str> { vec!["@ + series(
        Piece::Key,
        names,
        Seq::empty(),
        false,
        names.len(),
    ) + "] }"@
}

/// The source text of `values`.
pub open spec fn values_source(elem: ElemModel, fields: Seq<Seq<char>>) -> Seq<char> {
    "pub fn values(&self) -> Vec<& "@ + elem_text(elem) + " > { vec!["@ + series(
        Piece::Ref,
        fields,
        Seq::empty(),
        false,
        fields.len(),
    ) + "] }"@
}

/// The source text of `get`.
pub open spec fn get_source(elem: ElemModel, fields: Seq<Seq<char>>) -> Seq<char> {
    "pub fn get(&self, key: &str) -> & "@ + elem_text(elem) + " { match key { "@ + series(
        Piece::Read,
        fields,
        Seq::empty(),
        true,
        fields.len(),
    ) + fallback() + " } }"@
}

/// The piece that `set` has for each field.
pub open spec fn set_piece(elem: ElemModel) -> Piece {
    match elem {
        ElemModel::Common(_) => Piece::Assign,
        ElemModel::Any => Piece::Downcast,
    }
}

/// The source text of `set`.
pub open spec fn set_source(
    elem: ElemModel,
    fields: Seq<Seq<char>>,
    types: Seq<Seq<char>>,
) -> Seq<char> {
    "pub fn set(&mut self, key: &str, value: "@ + (match elem {
        ElemModel::Common(t) => t,
        ElemModel::Any => "&dyn ::core::any::Any"@,
    }) + ") { match key { "@ + series(set_piece(elem), fields, types, true, fields.len())
        + fallback() + " } }"@
}

/// The first line of an `impl` block for the record: the generic parameters
/// with their bounds, then `middle`, then the record's name with the names of
/// the parameters, then the `where` clause.
pub open spec fn impl_header(
    middle: Seq<char>,
    target: Seq<char>,
    generics: (Seq<char>, Seq<char>),
    where_clause: Seq<char>,
) -> Seq<char> {
    "impl "@ + generics.0 + middle + target + " "@ + generics.1 + " "@ + where_clause
}

/// The source text of the two subscript operators.
pub open spec fn index_source(
    target: Seq<char>,
    generics: (Seq<char>, Seq<char>),
    where_clause: Seq<char>,
    output: Seq<char>,
    fields: Seq<Seq<char>>,
) -> Seq<char> {
    impl_header(" core::ops::Index<&str> for "@, target, generics, where_clause)
        + " { type Output = "@ + output
        + "; fn index(&self, index: &str) -> &Self::Output { match index { "@ + series(
        Piece::Read,
        fields,
        Seq::empty(),
        true,
        fields.len(),
    ) + fallback() + ", } } } "@ + impl_header(
        " core::ops::IndexMut<&str> for "@,
        target,
        generics,
        where_clause,
    ) + " { fn index_mut(&mut self, index: &str) -> &mut Self::Output { match index { "@ + series(
        Piece::Write,
        fields,
        Seq::empty(),
        true,
        fields.len(),
    ) + fallback() + ", } } }"@
}

/// Appends the first line of an `impl` block to `out`.
pub fn write_impl_header(
    out: &mut String,
    middle: &str,
    target: &String,
    generics: &Generics,
    where_clause: &Option<String>,
)
    ensures
        final(out)@ == old(out)@ + impl_header(
            middle@,
            target@,
            generics@,
            clause_text(*where_clause),
        ),
{
    let ghost start = out@;
    out.append("impl ");
    out.append(generics.params.as_str());
    out.append(middle);
    out.append(target.as_str());
    out.append(" ");
    out.append(generics.args.as_str());
    out.append(" ");
    match where_clause {
        Some(text) => {
            out.append(text.as_str());
        },
        None => {},
    }
    assert(out@ =~= start + impl_header(
        middle@,
        target@,
        generics@,
        clause_text(*where_clause),
    ));
}

/// The routine `keys`: it lists the names of the fields.
#[derive(Debug, PartialEq, Eq)]
pub struct KeysFn {
    /// The names, in the order of the declaration.
    pub names: Vec<String>,
}

impl KeysFn {
    /// The routine as Rust source.
    pub open spec fn source(&self) -> Seq<char> {
        keys_source(texts(self.names@))
    }

    /// Writes the routine out as Rust source.
    pub fn to_source(&self) -> (text: String)
        ensures
            text@ == self.source(),
    {
        let none: Vec<String> = Vec::new();
        assert(texts(none@) =~= Seq::<Seq<char>>::empty());
        let mut out = "pub fn keys() -> Vec<&'static str> { vec![".to_owned();
        write_series(&mut out, Piece::Key, &self.names, &none, false);
        out.append("] }");
        out
    }
}

/// The routine `values`: it lists the values of the fields.
#[derive(Debug, PartialEq, Eq)]
pub struct ValuesFn {
    /// What the routine hands out for each field.
    pub elem: Elem,
    /// The fields, in the order of the declaration.
    pub fields: Vec<String>,
}

impl ValuesFn {
    /// The routine as Rust source.
    pub open spec fn source(&self) -> Seq<char> {
        values_source(self.elem@, texts(self.fields@))
    }

    /// Writes the routine out as Rust source.
    pub fn to_source(&self) -> (text: String)
        ensures
            text@ == self.source(),
    {
        let none: Vec<String> = Vec::new();
        assert(texts(none@) =~= Seq::<Seq<char>>::empty());
        let mut out = "pub fn values(&self) -> Vec<& ".to_owned();
        match &self.elem {
            Elem::Common(t) => {
                out.append(t.as_str());
            },
            Elem::Any => {
                out.append("dyn ::core::any::Any");
            },
        }
        out.append(" > { vec![");
        write_series(&mut out, Piece::Ref, &self.fields, &none, false);
        out.append("] }");
        out
    }
}

/// The routine `get`: it hands out the value of the field that a key names.
#[derive(Debug, PartialEq, Eq)]
pub struct GetFn {
    /// What the routine hands out.
    pub elem: Elem,
    /// The fields, in the order of the declaration.
    pub fields: Vec<String>,
}

impl GetFn {
    /// The routine as Rust source.
    pub open spec fn source(&self) -> Seq<char> {
        get_source(self.elem@, texts(self.fields@))
    }

    /// Writes the routine out as Rust source.
    pub fn to_source(&self) -> (text: String)
        ensures
            text@ == self.source(),
    {
        let none: Vec<String> = Vec::new();
        assert(texts(none@) =~= Seq::<Seq<char>>::empty());
        let mut out = "pub fn get(&self, key: &str) -> & ".to_owned();
        match &self.elem {
            Elem::Common(t) => {
                out.append(t.as_str());
            },
            Elem::Any => {
                out.append("dyn ::core::any::Any");
            },
        }
        out.append(" { match key { ");
        write_series(&mut out, Piece::Read, &self.fields, &none, true);
        out.append("_ => panic!(\"不存在的key\")");
        out.append(" } }");
        out
    }
}

/// The routine `set`: it assigns a value to the field that a key names.
#[derive(Debug, PartialEq, Eq)]
pub struct SetFn {
    /// What the routine takes as the value.
    pub elem: Elem,
    /// The fields, in the order of the declaration.
    pub fields: Vec<String>,
    /// The type of each field. A value of any type is tested against it.
    pub types: Vec<String>,
}

impl SetFn {
    /// The routine as Rust source.
    pub open spec fn source(&self) -> Seq<char> {
        set_source(self.elem@, texts(self.fields@), texts(self.types@))
    }

    /// Writes the routine out as Rust source.
    pub fn to_source(&self) -> (text: String)
        ensures
            text@ == self.source(),
    {
        let mut out = "pub fn set(&mut self, key: &str, value: ".to_owned();
        match &self.elem {
            Elem::Common(t) => {
                out.append(t.as_str());
                out.append(") { match key { ");
                write_series(&mut out, Piece::Assign, &self.fields, &self.types, true);
            },
            Elem::Any => {
                out.append("&dyn ::core::any::Any");
                out.append(") { match key { ");
                write_series(&mut out, Piece::Downcast, &self.fields, &self.types, true);
            },
        }
        out.append("_ => panic!(\"不存在的key\")");
        out.append(" } }");
        out
    }
}

/// The two subscript operators of a record: `record[key]` to read a field and
/// to assign to one.
#[derive(Debug, PartialEq, Eq)]
pub struct IndexOps {
    /// The record's name.
    pub target: String,
    /// The record's generic parameters.
    pub generics: Generics,
    /// The record's `where` clause.
    pub where_clause: Option<String>,
    /// The type of the fields.
    pub output: String,
    /// The fields, in the order of the declaration.
    pub fields: Vec<String>,
}

impl IndexOps {
    /// The two operators as Rust source.
    pub open spec fn source(&self) -> Seq<char> {
        index_source(
            self.target@,
            self.generics@,
            clause_text(self.where_clause),
            self.output@,
            texts(self.fields@),
        )
    }

    /// Writes the two operators out as Rust source.
    pub fn to_source(&self) -> (text: String)
        ensures
            text@ == self.source(),
    {
        let none: Vec<String> = Vec::new();
        assert(texts(none@) =~= Seq::<Seq<char>>::empty());
        let mut out = String::new();
        write_impl_header(
            &mut out,
            " core::ops::Index<&str> for ",
            &self.target,
            &self.generics,
            &self.where_clause,
        );
        out.append(" { type Output = ");
        out.append(self.output.as_str());
        out.append("; fn index(&self, index: &str) -> &Self::Output { match index { ");
        write_series(&mut out, Piece::Read, &self.fields, &none, true);
        out.append("_ => panic!(\"不存在的key\")");
        out.append(", } } } ");
        write_impl_header(
            &mut out,
            " core::ops::IndexMut<&str> for ",
            &self.target,
            &self.generics,
            &self.where_clause,
        );
        out.append(" { fn index_mut(&mut self, index: &str) -> &mut Self::Output { match index { ");
        write_series(&mut out, Piece::Write, &self.fields, &none, true);
        out.append("_ => panic!(\"不存在的key\")");
        out.append(", } } }");
        assert(out@ =~= self.source());
        out
    }
}

/// All that is generated for one record.
#[derive(Debug, PartialEq, Eq)]
pub struct GeneratedCode {
    /// The record's name.
    pub target: String,
    /// The record's generic parameters.
    pub generics: Generics,
    /// The record's `where` clause.
    pub where_clause: Option<String>,
    /// The routine `keys`.
    pub keys: KeysFn,
    /// The routine `values`.
    pub values: ValuesFn,
    /// The routine `get`.
    pub get: GetFn,
    /// The routine `set`.
    pub set: SetFn,
    /// The subscript operators, where the record has them.
    pub index: Option<IndexOps>,
}

/// The source text of optional subscript operators.
pub open spec fn index_text(index: Option<IndexOps>) -> Seq<char> {
    match index {
        Some(ops) => ops.source(),
        None => Seq::empty(),
    }
}

impl GeneratedCode {
    /// The generated code as Rust source: an `impl` block with the four
    /// routines, and the subscript operators behind it.
    pub open spec fn source(&self) -> Seq<char> {
        impl_header(" "@, self.target@, self.generics@, clause_text(self.where_clause)) + " { "@
            + self.keys.source() + " "@ + self.values.source() + " "@ + self.get.source() + " "@
            + self.set.source() + " } "@ + index_text(self.index)
    }

    /// Writes the generated code out as Rust source.
    pub fn to_source(&self) -> (text: String)
        ensures
            text@ == self.source(),
    {
        let mut out = String::new();
        write_impl_header(&mut out, " ", &self.target, &self.generics, &self.where_clause);
        out.append(" { ");
        out.append(self.keys.to_source().as_str());
        out.append(" ");
        out.append(self.values.to_source().as_str());
        out.append(" ");
        out.append(self.get.to_source().as_str());
        out.append(" ");
        out.append(self.set.to_source().as_str());
        out.append(" } ");
        match &self.index {
            Some(ops) => {
                out.append(ops.to_source().as_str());
            },
            None => {},
        }
        assert(out@ =~= self.source());
        out
    }
}

} // verus!
