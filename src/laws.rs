//! Properties that hold of every generation.
use vstd::prelude::*;
use crate::generate::{
    constructor_of, generated, namespace_name, parameters_of, construction_of,
    ConstructionView, ConstructorView, GenError, ParameterView,
};
use crate::model::{Declaration, DeclarationView, FieldsView, VariantView};
use crate::render::{expansion, function_text, header_text, namespace_text, signature_text};
use crate::text::joined;
use crate::text::decimal;

verus! {

/// Generation depends on the declaration's value alone: two declarations that
/// hold the same value generate the same module and expand to the same text.
pub proof fn lemma_deterministic(a: &Declaration, b: &Declaration)
    requires
        a@ == b@,
    ensures
        generated(a@) == generated(b@),
        expansion(a@) == expansion(b@),
{
}

/// The module of a sum type holds exactly one function per variant, in the
/// order of the variants, each named after its variant.
pub proof fn lemma_order_preserved(d: DeclarationView)
    requires
        d.body is Enum,
    ensures
        generated(d) is Ok,
        generated(d)->Ok_0.constructors.len() == d.body->Enum_0.len(),
        forall|i: int|
            0 <= i < d.body->Enum_0.len() ==> {
                &&& #[trigger] generated(d)->Ok_0.constructors[i] == constructor_of(
                    d.body->Enum_0[i],
                )
                &&& generated(d)->Ok_0.constructors[i].name == d.body->Enum_0[i].name
            },
{
}

/// The module's text is its header, then the functions of the variants one
/// after another in the order of the variants, then the closing brace.
pub proof fn lemma_text_in_variant_order(d: DeclarationView)
    requires
        d.body is Enum,
    ensures
        ({
            let ns = generated(d)->Ok_0;
            namespace_text(ns) == header_text(ns.name) + joined(
                d.body->Enum_0.map_values(|v: VariantView| function_text(ns, constructor_of(v))),
                Seq::empty(),
            ) + "}\n"@
        }),
{
    let ns = generated(d)->Ok_0;
    assert(ns.constructors.map_values(|c: ConstructorView| function_text(ns, c))
        =~= d.body->Enum_0.map_values(|v: VariantView| function_text(ns, constructor_of(v))));
}

/// Each function takes the fields of its variant as parameters and builds the
/// variant from them: none for a unit variant; one per positional field, typed
/// as the field and passed in the same order; one per named field, under the
/// field's name and type, each field given the argument of its own name.
pub proof fn lemma_shape_fidelity(v: VariantView)
    ensures
        ({
            let c = constructor_of(v);
            let names = c.parameters.map_values(|p: ParameterView| p.name);
            &&& v.fields is Unit ==> c.parameters.len() == 0 && c.construction
                is Unit
            &&& v.fields matches FieldsView::Positional(tys) ==> {
                &&& c.parameters.len() == tys.len()
                &&& forall|i: int| 0 <= i < tys.len() ==> #[trigger] c.parameters[i].ty == tys[i]
                &&& c.construction == ConstructionView::Positional(names)
            }
            &&& v.fields matches FieldsView::Named(fs) ==> {
                &&& c.parameters.len() == fs.len()
                &&& forall|i: int|
                    0 <= i < fs.len() ==> #[trigger] c.parameters[i].name == fs[i].name
                        && c.parameters[i].ty == fs[i].ty
                &&& c.construction == ConstructionView::Named(names)
            }
        }),
{
    let c = constructor_of(v);
    let names = c.parameters.map_values(|p: ParameterView| p.name);
    match v.fields {
        FieldsView::Unit => {},
        FieldsView::Positional(tys) => {
            assert(construction_of(v.fields)->Positional_0 =~= names);
        },
        FieldsView::Named(fs) => {
            assert(construction_of(v.fields)->Named_0 =~= names);
        },
    }
}

/// The module of sum type `E` is named `EB`.
pub proof fn lemma_namespace_named(d: DeclarationView)
    requires
        d.body is Enum,
    ensures
        generated(d)->Ok_0.name == d.name + seq!['B'],
{
    assert(namespace_name(d.name) =~= d.name + seq!['B']);
}

/// The parameter for the positional field at `index` is named `field`
/// followed by the index in decimal, and is passed under that name.
pub proof fn lemma_positional_names(tys: Seq<Seq<char>>, index: int)
    requires
        0 <= index < tys.len(),
    ensures
        parameters_of(FieldsView::Positional(tys))[index].name == seq!['f', 'i', 'e', 'l', 'd']
            + decimal(index as nat),
        construction_of(FieldsView::Positional(tys))->Positional_0[index] == seq![
            'f',
            'i',
            'e',
            'l',
            'd',
        ] + decimal(index as nat),
{
}

/// Every generated function carries the sum type's generic parameters and
/// `where` clause, and returns the sum type, instantiated with its own
/// parameters, in a box: its text opens with that signature.
pub proof fn lemma_generics_propagated(d: DeclarationView, i: int)
    requires
        d.body is Enum,
        0 <= i < d.body->Enum_0.len(),
    ensures
        ({
            let ns = generated(d)->Ok_0;
            let v = d.body->Enum_0[i];
            let sig = signature_text(
                v.name,
                parameters_of(v.fields),
                d.name,
                d.generics,
                d.where_predicates,
            );
            function_text(ns, ns.constructors[i]).subrange(0, sig.len() as int) == sig
        }),
{
    let ns = generated(d)->Ok_0;
    let v = d.body->Enum_0[i];
    let sig = signature_text(v.name, parameters_of(v.fields), d.name, d.generics, d.where_predicates);
    assert(function_text(ns, ns.constructors[i]).subrange(0, sig.len() as int) =~= sig);
}

/// A declaration that is not a sum type generates nothing: generation and
/// expansion both fail with `UnsupportedDeclarationKind`.
pub proof fn lemma_non_enum_refused(d: DeclarationView)
    requires
        !(d.body is Enum),
    ensures
        generated(d) == Err::<crate::generate::NamespaceView, GenError>(
            GenError::UnsupportedDeclarationKind,
        ),
        expansion(d) == Err::<Seq<char>, GenError>(GenError::UnsupportedDeclarationKind),
{
}

} // verus!
