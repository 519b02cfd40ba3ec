//! The companion module written out as Rust source text.
use vstd::prelude::*;
use crate::generate::{
    generate, generated, Construction, ConstructionView, Constructor,
    ConstructorView, GenError, Namespace, NamespaceView, Parameter, ParameterView,
};
use crate::model::{Declaration, DeclarationView, GenericParam, GenericParamView};
use crate::text::{join_strings, joined, views_of};

verus! {

/// A generic parameter as declared: `'a: 'b`, `T: Clone + Debug`, `const N: usize`.
pub open spec fn param_decl(g: GenericParamView) -> Seq<char> {
    match g {
        GenericParamView::Lifetime { name, bounds } => name + bounds_text(bounds),
        GenericParamView::Type { name, bounds } => name + bounds_text(bounds),
        GenericParamView::Const { name, ty } => "const "@ + name + ": "@ + ty,
    }
}

/// The bounds of a parameter after its name: empty, or `: B1 + B2`.
pub open spec fn bounds_text(bounds: Seq<Seq<char>>) -> Seq<char> {
    if bounds.len() == 0 {
        Seq::empty()
    } else {
        ": "@ + joined(bounds, " + "@)
    }
}

/// A generic parameter as an argument: its name alone.
pub open spec fn param_arg(g: GenericParamView) -> Seq<char> {
    match g {
        GenericParamView::Lifetime { name, .. } => name,
        GenericParamView::Type { name, .. } => name,
        GenericParamView::Const { name, .. } => name,
    }
}

/// Items in angle brackets, separated by commas; nothing at all when there are none.
pub open spec fn angled(items: Seq<Seq<char>>) -> Seq<char> {
    if items.len() == 0 {
        Seq::empty()
    } else {
        "<"@ + joined(items, ", "@) + ">"@
    }
}

/// The generic parameter list as declared, with bounds.
pub open spec fn generics_decl(gs: Seq<GenericParamView>) -> Seq<char> {
    angled(gs.map_values(|g: GenericParamView| param_decl(g)))
}

/// The generic arguments that instantiate the sum type with its own parameters.
pub open spec fn generics_args(gs: Seq<GenericParamView>) -> Seq<char> {
    angled(gs.map_values(|g: GenericParamView| param_arg(g)))
}

/// The `where` clause, preceded by a space; nothing when there are no predicates.
pub open spec fn where_text(predicates: Seq<Seq<char>>) -> Seq<char> {
    if predicates.len() == 0 {
        Seq::empty()
    } else {
        " where "@ + joined(predicates, ", "@)
    }
}

/// A function parameter: `name: Type`.
pub open spec fn parameter_text(p: ParameterView) -> Seq<char> {
    p.name + ": "@ + p.ty
}

/// The parameter list of a function, without parentheses.
pub open spec fn parameters_text(ps: Seq<ParameterView>) -> Seq<char> {
    joined(ps.map_values(|p: ParameterView| parameter_text(p)), ", "@)
}

/// The expression that builds variant `variant` of sum type `enum_name`.
pub open spec fn construction_text(
    enum_name: Seq<char>,
    variant: Seq<char>,
    c: ConstructionView,
) -> Seq<char> {
    let path = enum_name + "::"@ + variant;
    match c {
        ConstructionView::Unit => path,
        ConstructionView::Positional(args) => path + "("@ + joined(args, ", "@) + ")"@,
        ConstructionView::Named(args) => path + " { "@ + joined(args, ", "@) + " }"@,
    }
}

/// The signature of a generated function, up to its body: it carries the sum
/// type's generic parameters and `where` clause, and returns the sum type,
/// instantiated with its own parameters, in a box.
pub open spec fn signature_text(
    name: Seq<char>,
    params: Seq<ParameterView>,
    enum_name: Seq<char>,
    gs: Seq<GenericParamView>,
    predicates: Seq<Seq<char>>,
) -> Seq<char> {
    "    pub(super) fn "@ + name + generics_decl(gs) + "("@ + parameters_text(params)
        + ") -> Box<"@ + enum_name + generics_args(gs) + ">"@ + where_text(predicates)
}

/// A generated function on one line.
pub open spec fn function_text(ns: NamespaceView, c: ConstructorView) -> Seq<char> {
    signature_text(c.name, c.parameters, ns.enum_name, ns.generics, ns.where_predicates)
        + " { Box::new("@ + construction_text(ns.enum_name, c.name, c.construction) + ") }\n"@
}

/// The opening of the module: the two `allow` attributes, the module's name,
/// and the import of the enclosing scope.
pub open spec fn header_text(name: Seq<char>) -> Seq<char> {
    "#[allow(proc_macro_derive_resolution_fallback)]\n#[allow(non_snake_case)]\nmod "@ + name
        + " {\n    use super::*;\n"@
}

/// The whole module, its functions in order.
pub open spec fn namespace_text(ns: NamespaceView) -> Seq<char> {
    header_text(ns.name) + joined(
        ns.constructors.map_values(|c: ConstructorView| function_text(ns, c)),
        Seq::empty(),
    ) + "}\n"@
}

/// What expansion yields for a declaration: the module's text, or the error.
pub open spec fn expansion(d: DeclarationView) -> Result<Seq<char>, GenError> {
    match generated(d) {
        Ok(ns) => Ok(namespace_text(ns)),
        Err(e) => Err(e),
    }
}

fn bounds_string(bounds: &Vec<String>) -> (r: String)
    ensures
        r@ == bounds_text(views_of(bounds@)),
{
    if bounds.len() == 0 {
        String::new()
    } else {
        let mut r = String::from_str(": ");
        let list = join_strings(bounds, " + ");
        r.append(list.as_str());
        r
    }
}

/// Writes a generic parameter as declared.
pub fn param_decl_string(g: &GenericParam) -> (r: String)
    ensures
        r@ == param_decl(g@),
{
    match g {
        GenericParam::Lifetime { name, bounds } | GenericParam::Type { name, bounds } => {
            let mut r = name.clone();
            let b = bounds_string(bounds);
            r.append(b.as_str());
            r
        },
        GenericParam::Const { name, ty } => {
            let mut r = String::from_str("const ");
            r.append(name.as_str());
            r.append(": ");
            r.append(ty.as_str());
            r
        },
    }
}

/// Writes a generic parameter as an argument.
pub fn param_arg_string(g: &GenericParam) -> (r: String)
    ensures
        r@ == param_arg(g@),
{
    match g {
        GenericParam::Lifetime { name, .. } => name.clone(),
        GenericParam::Type { name, .. } => name.clone(),
        GenericParam::Const { name, .. } => name.clone(),
    }
}

fn angled_string(items: &Vec<String>) -> (r: String)
    ensures
        r@ == angled(views_of(items@)),
{
    if items.len() == 0 {
        String::new()
    } else {
        let mut r = String::from_str("<");
        let list = join_strings(items, ", ");
        r.append(list.as_str());
        r.append(">");
        r
    }
}

/// Writes the generic parameter list as declared.
pub fn generics_decl_string(gs: &Vec<GenericParam>) -> (r: String)
    ensures
        r@ == generics_decl(gs@.map_values(|g: GenericParam| g@)),
{
    let mut items: Vec<String> = Vec::new();
    let mut i: usize = 0;
    while i < gs.len()
        invariant
            i <= gs.len(),
            items@.len() == i,
            forall|j: int| 0 <= j < i ==> #[trigger] items@[j]@ == param_decl(gs@[j]@),
        decreases gs.len() - i,
    {
        items.push(param_decl_string(&gs[i]));
        i = i + 1;
    }
    let r = angled_string(&items);
    assert(views_of(items@) =~= gs@.map_values(|g: GenericParam| g@).map_values(
        |g: GenericParamView| param_decl(g),
    ));
    r
}

/// Writes the generic arguments that instantiate the sum type.
pub fn generics_args_string(gs: &Vec<GenericParam>) -> (r: String)
    ensures
        r@ == generics_args(gs@.map_values(|g: GenericParam| g@)),
{
    let mut items: Vec<String> = Vec::new();
    let mut i: usize = 0;
    while i < gs.len()
        invariant
            i <= gs.len(),
            items@.len() == i,
            forall|j: int| 0 <= j < i ==> #[trigger] items@[j]@ == param_arg(gs@[j]@),
        decreases gs.len() - i,
    {
        items.push(param_arg_string(&gs[i]));
        i = i + 1;
    }
    let r = angled_string(&items);
    assert(views_of(items@) =~= gs@.map_values(|g: GenericParam| g@).map_values(
        |g: GenericParamView| param_arg(g),
    ));
    r
}

/// Writes the `where` clause, preceded by a space.
pub fn where_string(predicates: &Vec<String>) -> (r: String)
    ensures
        r@ == where_text(views_of(predicates@)),
{
    if predicates.len() == 0 {
        String::new()
    } else {
        let mut r = String::from_str(" where ");
        let list = join_strings(predicates, ", ");
        r.append(list.as_str());
        r
    }
}

/// Writes the parameter list of a function.
pub fn parameters_string(ps: &Vec<Parameter>) -> (r: String)
    ensures
        r@ == parameters_text(ps@.map_values(|p: Parameter| p@)),
{
    let mut items: Vec<String> = Vec::new();
    let mut i: usize = 0;
    while i < ps.len()
        invariant
            i <= ps.len(),
            items@.len() == i,
            forall|j: int| 0 <= j < i ==> #[trigger] items@[j]@ == parameter_text(ps@[j]@),
        decreases ps.len() - i,
    {
        let mut item = ps[i].name.clone();
        item.append(": ");
        item.append(ps[i].ty.as_str());
        items.push(item);
        i = i + 1;
    }
    let r = join_strings(&items, ", ");
    assert(views_of(items@) =~= ps@.map_values(|p: Parameter| p@).map_values(
        |p: ParameterView| parameter_text(p),
    ));
    r
}

/// Writes the expression that builds `variant` of sum type `enum_name`.
pub fn construction_string(enum_name: &String, variant: &String, c: &Construction) -> (r: String)
    ensures
        r@ == construction_text(enum_name@, variant@, c@),
{
    let mut r = enum_name.clone();
    r.append("::");
    r.append(variant.as_str());
    match c {
        Construction::Unit => {},
        Construction::Positional(args) => {
            let list = join_strings(args, ", ");
            r.append("(");
            r.append(list.as_str());
            r.append(")");
        },
        Construction::Named(args) => {
            let list = join_strings(args, ", ");
            r.append(" { ");
            r.append(list.as_str());
            r.append(" }");
        },
    }
    r
}

/// Writes one generated function of `ns`.
pub fn function_string(ns: &Namespace, c: &Constructor) -> (r: String)
    ensures
        r@ == function_text(ns@, c@),
{
    let mut r = String::from_str("    pub(super) fn ");
    r.append(c.name.as_str());
    let gd = generics_decl_string(&ns.generics);
    r.append(gd.as_str());
    r.append("(");
    let ps = parameters_string(&c.parameters);
    r.append(ps.as_str());
    r.append(") -> Box<");
    r.append(ns.enum_name.as_str());
    let ga = generics_args_string(&ns.generics);
    r.append(ga.as_str());
    r.append(">");
    let w = where_string(&ns.where_predicates);
    r.append(w.as_str());
    r.append(" { Box::new(");
    let body = construction_string(&ns.enum_name, &c.name, &c.construction);
    r.append(body.as_str());
    r.append(") }\n");
    r
}

/// Writes the companion module as source text.
pub fn render(ns: &Namespace) -> (r: String)
    ensures
        r@ == namespace_text(ns@),
{
    let mut r = String::from_str("#[allow(proc_macro_derive_resolution_fallback)]\n#[allow(non_snake_case)]\nmod ");
    r.append(ns.name.as_str());
    r.append(" {\n    use super::*;\n");
    let mut items: Vec<String> = Vec::new();
    let mut i: usize = 0;
    while i < ns.constructors.len()
        invariant
            i <= ns.constructors.len(),
            items@.len() == i,
            forall|j: int|
                0 <= j < i ==> #[trigger] items@[j]@ == function_text(ns@, ns.constructors@[j]@),
        decreases ns.constructors.len() - i,
    {
        items.push(function_string(ns, &ns.constructors[i]));
        i = i + 1;
    }
    let body = join_strings(&items, "");
    proof {
        reveal_strlit("");
        assert(""@ =~= Seq::<char>::empty());
        assert(views_of(items@) =~= ns@.constructors.map_values(
            |c: ConstructorView| function_text(ns@, c),
        ));
    }
    r.append(body.as_str());
    r.append("}\n");
    assert(r@ =~= namespace_text(ns@));
    r
}

/// Expands `decl`: the source text of its companion module, or
/// `UnsupportedDeclarationKind` when it is not a sum type.
pub fn expand(decl: Declaration) -> (r: Result<String, GenError>)
    ensures
        r is Ok <==> decl@.body is Enum,
        r matches Ok(text) ==> expansion(decl@) == Ok::<Seq<char>, GenError>(text@),
        r matches Err(e) ==> expansion(decl@) == Err::<Seq<char>, GenError>(e),
{
    match generate(decl) {
        Ok(ns) => Ok(render(&ns)),
        Err(e) => Err(e),
    }
}

} // verus!
