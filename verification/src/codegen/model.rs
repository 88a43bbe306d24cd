//! What the code generators read of an item: names, types as token text, and
//! the paths of the attributes on each field.

use vstd::prelude::*;
use crate::cli::scanner::strings_view;

verus! {

/// An attribute on a field: its path, and the tokens between its
/// parentheses when it is written as a list, `#[path(tokens)]`.
pub struct AttrModel {
    pub path: String,
    pub list_tokens: Option<Vec<Tok>>,
    /// The whole attribute as token text, `#[...]`.
    pub text: String,
}

/// One token of an attribute's arguments.
#[derive(Clone)]
pub enum Tok {
    /// An identifier.
    Ident(String),
    /// A punctuation character, and whether it is joined to the next one.
    Punct(char, bool),
    /// Anything else (a literal or a group).
    Other(String),
}

/// A named field: its attributes, its visibility, its name and its type,
/// each as token text.
pub struct FieldModel {
    pub name: String,
    pub ty: String,
    pub attrs: Vec<AttrModel>,
    pub vis: String,
}

/// The body of the item a derive is applied to.
pub enum DataModel {
    Struct(Vec<FieldModel>),
    Enum,
    Union,
}

/// The item a derive is applied to: its outer attributes, visibility,
/// generics and where clause as token text, its name and its body. The
/// generics come three ways: as declared, as an impl of the type declares
/// them (without defaults), and as the type is named with them (the
/// parameters alone).
pub struct ItemModel {
    pub name: String,
    pub data: DataModel,
    pub attrs: String,
    pub vis: String,
    pub generics: String,
    pub where_clause: String,
    pub impl_generics: String,
    pub type_generics: String,
}

/// A failed expansion and its message.
pub struct MacroError {
    pub message: String,
}

pub enum TokView {
    Ident(Seq<char>),
    Punct(char, bool),
    Other(Seq<char>),
}

pub struct AttrView {
    pub path: Seq<char>,
    pub list_tokens: Option<Seq<TokView>>,
    pub text: Seq<char>,
}

pub struct FieldView {
    pub name: Seq<char>,
    pub ty: Seq<char>,
    pub attrs: Seq<AttrView>,
    pub vis: Seq<char>,
}

pub enum DataView {
    Struct(Seq<FieldView>),
    Enum,
    Union,
}

pub struct ItemView {
    pub name: Seq<char>,
    pub data: DataView,
    pub attrs: Seq<char>,
    pub vis: Seq<char>,
    pub generics: Seq<char>,
    pub where_clause: Seq<char>,
    pub impl_generics: Seq<char>,
    pub type_generics: Seq<char>,
}

impl View for Tok {
    type V = TokView;

    open spec fn view(&self) -> TokView {
        match self {
            Tok::Ident(s) => TokView::Ident(s@),
            Tok::Punct(c, j) => TokView::Punct(*c, *j),
            Tok::Other(s) => TokView::Other(s@),
        }
    }
}

pub open spec fn toks_view(v: Seq<Tok>) -> Seq<TokView> {
    v.map_values(|t: Tok| t@)
}

impl View for AttrModel {
    type V = AttrView;

    open spec fn view(&self) -> AttrView {
        AttrView {
            path: self.path@,
            list_tokens: match self.list_tokens {
                Some(v) => Some(toks_view(v@)),
                None => None,
            },
            text: self.text@,
        }
    }
}

pub open spec fn attrs_view(v: Seq<AttrModel>) -> Seq<AttrView> {
    v.map_values(|a: AttrModel| a@)
}

impl View for FieldModel {
    type V = FieldView;

    open spec fn view(&self) -> FieldView {
        FieldView { name: self.name@, ty: self.ty@, attrs: attrs_view(self.attrs@), vis: self.vis@ }
    }
}

pub open spec fn fields_view(v: Seq<FieldModel>) -> Seq<FieldView> {
    v.map_values(|f: FieldModel| f@)
}

impl View for ItemModel {
    type V = ItemView;

    open spec fn view(&self) -> ItemView {
        ItemView {
            name: self.name@,
            data: match self.data {
                DataModel::Struct(fs) => DataView::Struct(fields_view(fs@)),
                DataModel::Enum => DataView::Enum,
                DataModel::Union => DataView::Union,
            },
            attrs: self.attrs@,
            vis: self.vis@,
            generics: self.generics@,
            where_clause: self.where_clause@,
            impl_generics: self.impl_generics@,
            type_generics: self.type_generics@,
        }
    }
}

/// The field carries an attribute whose path is `p`.
pub open spec fn has_attr(f: FieldView, p: Seq<char>) -> bool {
    exists|i: int| 0 <= i < f.attrs.len() && f.attrs[i].path == p
}

/// Whether the field carries an attribute whose path is `p`.
pub fn field_has_attr(f: &FieldModel, p: &str) -> (b: bool)
    ensures
        b == has_attr(f@, p@),
{
    let mut i: usize = 0;
    while i < f.attrs.len()
        invariant
            i <= f.attrs@.len(),
            forall|j: int| 0 <= j < i ==> f@.attrs[j].path != p@,
        decreases f.attrs@.len() - i,
    {
        assert(f@.attrs[i as int] == f.attrs@[i as int]@);
        if crate::text::same_text(f.attrs[i].path.as_str(), p) {
            return true;
        }
        i = i + 1;
    }
    false
}

/// What a parser says when the token it expects at position `i` is missing:
/// past the last token, that the input ended.
pub open spec fn expected_at(len: int, i: int, msg: Seq<char>) -> Seq<char> {
    if i >= len {
        "unexpected end of input, "@ + msg
    } else {
        msg
    }
}

pub fn expected_msg(len: usize, i: usize, msg: &str) -> (r: String)
    ensures
        r@ == expected_at(len as int, i as int, msg@),
{
    let mut v: Vec<char> = Vec::new();
    if i >= len {
        crate::text::push_str(&mut v, "unexpected end of input, ");
    }
    crate::text::push_str(&mut v, msg);
    crate::text::string_from_chars(&v)
}

pub fn error(message: &str) -> (e: MacroError)
    ensures
        e.message@ == message@,
{
    MacroError { message: message.to_owned() }
}

} // verus!
