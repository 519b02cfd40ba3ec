//! The declaration that the generator reads, and its mathematical view.
use vstd::prelude::*;
use crate::text::views_of;

verus! {

/// One parameter of the declaration's generic parameter list.
pub enum GenericParam {
    /// A lifetime parameter with its outlives bounds: `'a: 'b + 'c`.
    Lifetime { name: String, bounds: Vec<String> },
    /// A type parameter with its trait bounds: `T: Clone + Debug`.
    Type { name: String, bounds: Vec<String> },
    /// A const parameter with its type: `const N: usize`.
    Const { name: String, ty: String },
}

/// A field of a variant whose fields are named.
pub struct NamedField {
    pub name: String,
    pub ty: String,
}

/// The shape of a variant: no fields, fields by position, or fields by name.
pub enum Fields {
    Unit,
    /// The field types, in order.
    Positional(Vec<String>),
    Named(Vec<NamedField>),
}

/// One variant of a sum type.
pub struct Variant {
    pub name: String,
    pub fields: Fields,
}

/// What kind of type a declaration introduces.
pub enum Body {
    /// A sum type, with its variants in declaration order.
    Enum(Vec<Variant>),
    Struct,
    Union,
}

/// A type declaration as the surface parser hands it over.
pub struct Declaration {
    pub name: String,
    pub generics: Vec<GenericParam>,
    /// The predicates of the `where` clause; empty when there is none.
    pub where_predicates: Vec<String>,
    pub body: Body,
}

pub enum GenericParamView {
    Lifetime { name: Seq<char>, bounds: Seq<Seq<char>> },
    Type { name: Seq<char>, bounds: Seq<Seq<char>> },
    Const { name: Seq<char>, ty: Seq<char> },
}

pub struct NamedFieldView {
    pub name: Seq<char>,
    pub ty: Seq<char>,
}

pub enum FieldsView {
    Unit,
    Positional(Seq<Seq<char>>),
    Named(Seq<NamedFieldView>),
}

pub struct VariantView {
    pub name: Seq<char>,
    pub fields: FieldsView,
}

pub enum BodyView {
    Enum(Seq<VariantView>),
    Struct,
    Union,
}

pub struct DeclarationView {
    pub name: Seq<char>,
    pub generics: Seq<GenericParamView>,
    pub where_predicates: Seq<Seq<char>>,
    pub body: BodyView,
}

impl View for GenericParam {
    type V = GenericParamView;

    open spec fn view(&self) -> GenericParamView {
        match self {
            GenericParam::Lifetime { name, bounds } => GenericParamView::Lifetime {
                name: name@,
                bounds: views_of(bounds@),
            },
            GenericParam::Type { name, bounds } => GenericParamView::Type {
                name: name@,
                bounds: views_of(bounds@),
            },
            GenericParam::Const { name, ty } => GenericParamView::Const { name: name@, ty: ty@ },
        }
    }
}

impl View for NamedField {
    type V = NamedFieldView;

    open spec fn view(&self) -> NamedFieldView {
        NamedFieldView { name: self.name@, ty: self.ty@ }
    }
}

impl View for Fields {
    type V = FieldsView;

    open spec fn view(&self) -> FieldsView {
        match self {
            Fields::Unit => FieldsView::Unit,
            Fields::Positional(tys) => FieldsView::Positional(views_of(tys@)),
            Fields::Named(fs) => FieldsView::Named(fs@.map_values(|f: NamedField| f@)),
        }
    }
}

impl View for Variant {
    type V = VariantView;

    open spec fn view(&self) -> VariantView {
        VariantView { name: self.name@, fields: self.fields@ }
    }
}

impl View for Body {
    type V = BodyView;

    open spec fn view(&self) -> BodyView {
        match self {
            Body::Enum(vs) => BodyView::Enum(vs@.map_values(|v: Variant| v@)),
            Body::Struct => BodyView::Struct,
            Body::Union => BodyView::Union,
        }
    }
}

impl View for Declaration {
    type V = DeclarationView;

    open spec fn view(&self) -> DeclarationView {
        DeclarationView {
            name: self.name@,
            generics: self.generics@.map_values(|g: GenericParam| g@),
            where_predicates: views_of(self.where_predicates@),
            body: self.body@,
        }
    }
}

} // verus!
