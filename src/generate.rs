//! The companion module: one boxing constructor per variant.
use vstd::prelude::*;
use crate::model::{
    Body, BodyView, Declaration, DeclarationView, Fields, FieldsView, GenericParam, GenericParamView,
    NamedField, NamedFieldView, Variant, VariantView,
};
use crate::text::{decimal, decimal_string};

verus! {

/// A parameter of a generated function.
pub struct Parameter {
    pub name: String,
    pub ty: String,
}

/// How a generated function builds its variant from its parameters.
pub enum Construction {
    /// The bare variant: `E::A`.
    Unit,
    /// The variant applied to the arguments by position: `E::V(field0, field1)`.
    Positional(Vec<String>),
    /// The variant with each field given the argument of its own name: `E::V { x, y }`.
    Named(Vec<String>),
}

/// A generated function: named after its variant, it builds the variant and boxes it.
pub struct Constructor {
    pub name: String,
    pub parameters: Vec<Parameter>,
    pub construction: Construction,
}

/// The generated companion module of a sum type.
pub struct Namespace {
    pub name: String,
    /// The sum type that every function returns, boxed.
    pub enum_name: String,
    /// The sum type's generic parameters, carried by every function.
    pub generics: Vec<GenericParam>,
    /// The sum type's `where` predicates, carried by every function.
    pub where_predicates: Vec<String>,
    /// One function per variant, in the order of the variants.
    pub constructors: Vec<Constructor>,
}

/// Why no companion module could be generated.
#[derive(PartialEq, Eq, Structural, Debug, Clone, Copy)]
pub enum GenError {
    /// The declaration is not a sum type.
    UnsupportedDeclarationKind,
}

pub struct ParameterView {
    pub name: Seq<char>,
    pub ty: Seq<char>,
}

pub enum ConstructionView {
    Unit,
    Positional(Seq<Seq<char>>),
    Named(Seq<Seq<char>>),
}

pub struct ConstructorView {
    pub name: Seq<char>,
    pub parameters: Seq<ParameterView>,
    pub construction: ConstructionView,
}

pub struct NamespaceView {
    pub name: Seq<char>,
    pub enum_name: Seq<char>,
    pub generics: Seq<GenericParamView>,
    pub where_predicates: Seq<Seq<char>>,
    pub constructors: Seq<ConstructorView>,
}

impl View for Parameter {
    type V = ParameterView;

    open spec fn view(&self) -> ParameterView {
        ParameterView { name: self.name@, ty: self.ty@ }
    }
}

impl View for Construction {
    type V = ConstructionView;

    open spec fn view(&self) -> ConstructionView {
        match self {
            Construction::Unit => ConstructionView::Unit,
            Construction::Positional(args) => ConstructionView::Positional(
                crate::text::views_of(args@),
            ),
            Construction::Named(args) => ConstructionView::Named(crate::text::views_of(args@)),
        }
    }
}

impl View for Constructor {
    type V = ConstructorView;

    open spec fn view(&self) -> ConstructorView {
        ConstructorView {
            name: self.name@,
            parameters: self.parameters@.map_values(|p: Parameter| p@),
            construction: self.construction@,
        }
    }
}

impl View for Namespace {
    type V = NamespaceView;

    open spec fn view(&self) -> NamespaceView {
        NamespaceView {
            name: self.name@,
            enum_name: self.enum_name@,
            generics: self.generics@.map_values(|g: GenericParam| g@),
            where_predicates: crate::text::views_of(self.where_predicates@),
            constructors: self.constructors@.map_values(|c: Constructor| c@),
        }
    }
}

/// The name of the companion module of the sum type `enum_name`: the name with `B` appended.
pub open spec fn namespace_name(enum_name: Seq<char>) -> Seq<char> {
    enum_name.push('B')
}

/// The name of the parameter that stands for the positional field at `index`.
pub open spec fn field_name(index: nat) -> Seq<char> {
    seq!['f', 'i', 'e', 'l', 'd'] + decimal(index)
}

/// The parameters of the function generated for a variant of the given shape.
pub open spec fn parameters_of(fields: FieldsView) -> Seq<ParameterView> {
    match fields {
        FieldsView::Unit => Seq::empty(),
        FieldsView::Positional(tys) => Seq::new(
            tys.len(),
            |i: int| ParameterView { name: field_name(i as nat), ty: tys[i] },
        ),
        FieldsView::Named(fs) => fs.map_values(
            |f: NamedFieldView| ParameterView { name: f.name, ty: f.ty },
        ),
    }
}

/// How the function generated for a variant of the given shape builds it.
pub open spec fn construction_of(fields: FieldsView) -> ConstructionView {
    match fields {
        FieldsView::Unit => ConstructionView::Unit,
        FieldsView::Positional(tys) => ConstructionView::Positional(
            Seq::new(tys.len(), |i: int| field_name(i as nat)),
        ),
        FieldsView::Named(fs) => ConstructionView::Named(fs.map_values(|f: NamedFieldView| f.name)),
    }
}

/// The function generated for a variant.
pub open spec fn constructor_of(v: VariantView) -> ConstructorView {
    ConstructorView {
        name: v.name,
        parameters: parameters_of(v.fields),
        construction: construction_of(v.fields),
    }
}

/// What generation yields for a declaration: the companion module of a sum type,
/// and an error for any other kind of declaration.
pub open spec fn generated(d: DeclarationView) -> Result<NamespaceView, GenError> {
    match d.body {
        BodyView::Enum(variants) => Ok(
            NamespaceView {
                name: namespace_name(d.name),
                enum_name: d.name,
                generics: d.generics,
                where_predicates: d.where_predicates,
                constructors: variants.map_values(|v: VariantView| constructor_of(v)),
            },
        ),
        _ => Err(GenError::UnsupportedDeclarationKind),
    }
}

/// The view of a generation result.
pub open spec fn result_view(r: Result<Namespace, GenError>) -> Result<NamespaceView, GenError> {
    match r {
        Ok(ns) => Ok(ns@),
        Err(e) => Err(e),
    }
}

/// Writes the name of the parameter for the positional field at `index`.
pub fn field_ident(index: usize) -> (r: String)
    ensures
        r@ == field_name(index as nat),
{
    let mut r = String::from_str("field");
    proof {
        reveal_strlit("field");
    }
    let digits = decimal_string(index);
    r.append(digits.as_str());
    r
}

/// Builds the function that constructs and boxes `variant`.
pub fn constructor_for(variant: &Variant) -> (r: Constructor)
    ensures
        r@ == constructor_of(variant@),
{
    let mut parameters: Vec<Parameter> = Vec::new();
    let construction = match &variant.fields {
        Fields::Unit => Construction::Unit,
        Fields::Positional(tys) => {
            let mut args: Vec<String> = Vec::new();
            let mut i: usize = 0;
            while i < tys.len()
                invariant
                    i <= tys.len(),
                    parameters@.len() == i,
                    args@.len() == i,
                    forall|j: int|
                        0 <= j < i ==> #[trigger] parameters@[j]@ == (ParameterView {
                            name: field_name(j as nat),
                            ty: tys@[j]@,
                        }),
                    forall|j: int| 0 <= j < i ==> #[trigger] args@[j]@ == field_name(j as nat),
                decreases tys.len() - i,
            {
                let name = field_ident(i);
                let arg = field_ident(i);
                parameters.push(Parameter { name, ty: tys[i].clone() });
                args.push(arg);
                i = i + 1;
            }
            Construction::Positional(args)
        },
        Fields::Named(fs) => {
            let mut args: Vec<String> = Vec::new();
            let mut i: usize = 0;
            while i < fs.len()
                invariant
                    i <= fs.len(),
                    parameters@.len() == i,
                    args@.len() == i,
                    forall|j: int|
                        0 <= j < i ==> #[trigger] parameters@[j]@ == (ParameterView {
                            name: fs@[j].name@,
                            ty: fs@[j].ty@,
                        }),
                    forall|j: int| 0 <= j < i ==> #[trigger] args@[j]@ == fs@[j].name@,
                decreases fs.len() - i,
            {
                parameters.push(Parameter { name: fs[i].name.clone(), ty: fs[i].ty.clone() });
                args.push(fs[i].name.clone());
                i = i + 1;
            }
            Construction::Named(args)
        },
    };
    let r = Constructor { name: variant.name.clone(), parameters, construction };
    assert(r@.parameters =~= parameters_of(variant@.fields));
    assert(r@.construction == construction_of(variant@.fields)) by {
        match &variant.fields {
            Fields::Unit => {},
            Fields::Positional(tys) => {
                assert(crate::text::views_of(r.construction->Positional_0@) =~= Seq::new(
                    tys@.len(),
                    |i: int| field_name(i as nat),
                ));
            },
            Fields::Named(fs) => {
                assert(crate::text::views_of(r.construction->Named_0@) =~= fs@.map_values(
                    |f: NamedField| f@,
                ).map_values(|f: NamedFieldView| f.name));
            },
        }
    }
    r
}

/// Generates the companion module of `decl`: a module named after the sum type
/// with `B` appended, holding, for each variant in order, the function that
/// builds that variant and boxes it. Any declaration other than a sum type is
/// refused with `UnsupportedDeclarationKind`, and nothing is generated.
pub fn generate(decl: Declaration) -> (r: Result<Namespace, GenError>)
    ensures
        result_view(r) == generated(decl@),
        r is Ok <==> decl@.body is Enum,
{
    let Declaration { name, generics, where_predicates, body } = decl;
    match body {
        Body::Enum(variants) => {
            let mut constructors: Vec<Constructor> = Vec::new();
            let mut i: usize = 0;
            while i < variants.len()
                invariant
                    i <= variants.len(),
                    constructors@.len() == i,
                    forall|j: int|
                        0 <= j < i ==> #[trigger] constructors@[j]@ == constructor_of(
                            variants@[j]@,
                        ),
                decreases variants.len() - i,
            {
                constructors.push(constructor_for(&variants[i]));
                i = i + 1;
            }
            let mut ns_name = name.clone();
            ns_name.append("B");
            proof {
                reveal_strlit("B");
            }
            let ns = Namespace {
                name: ns_name,
                enum_name: name,
                generics,
                where_predicates,
                constructors,
            };
            assert(ns@.name =~= namespace_name(decl@.name));
            assert(ns@.constructors =~= variants@.map_values(|v: Variant| v@).map_values(
                |v: VariantView| constructor_of(v),
            ));
            Ok(ns)
        },
        _ => Err(GenError::UnsupportedDeclarationKind),
    }
}

} // verus!
