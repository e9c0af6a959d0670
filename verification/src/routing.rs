//! The rules of the route derive: which route attributes are accepted, the
//! routes they produce, and the path templates of routes with parameters.

use vstd::prelude::*;
use vstd::string::*;

use crate::text::{join2, join3, contains_char, replace_all, spec_replace, spec_starts_with, str_equals};

verus! {

/// What the derive reads from one variant of a route enum.
#[derive(Debug, Clone)]
pub struct VariantAttributes {
    /// The variant's name.
    pub ident: String,
    /// The variant has unnamed (tuple) fields.
    pub unnamed_fields: bool,
    /// The values of its `at` attributes.
    pub at_routes: Vec<String>,
    /// How many `not_found` attributes it carries.
    pub not_found_attrs: usize,
}

/// Why a route enum is rejected.
#[derive(Debug, Clone, Copy, PartialEq, Eq, Structural)]
pub enum RouteError {
    UnnamedFields,
    MissingAt,
    MultipleAt,
    HashInRoute,
    RelativePath,
    MultipleNotFound,
}

/// The message of a route error.
pub open spec fn spec_route_error_message(e: RouteError) -> Seq<char> {
    match e {
        RouteError::UnnamedFields => "only named fields are supported"@,
        RouteError::MissingAt => "at attribute must be present on every variant"@,
        RouteError::MultipleAt => "only one at attribute must be present"@,
        RouteError::HashInRoute =>
            "You cannot use `#` in your routes. Please consider `HashRouter` instead."@,
        RouteError::RelativePath =>
            "relative paths are not supported at this moment (without a prefix). If you meant to use a prefix, consider using the route_prefix attribute macro."@,
        RouteError::MultipleNotFound => "there can only be one not_found"@,
    }
}

impl RouteError {
    /// The human-readable description of the error.
    pub fn message(&self) -> (m: String)
        ensures
            m@ == spec_route_error_message(*self),
    {
        match self {
            RouteError::UnnamedFields => String::from_str("only named fields are supported"),
            RouteError::MissingAt => String::from_str("at attribute must be present on every variant"),
            RouteError::MultipleAt => String::from_str("only one at attribute must be present"),
            RouteError::HashInRoute => String::from_str(
                "You cannot use `#` in your routes. Please consider `HashRouter` instead.",
            ),
            RouteError::RelativePath => String::from_str(
                "relative paths are not supported at this moment (without a prefix). If you meant to use a prefix, consider using the route_prefix attribute macro.",
            ),
            RouteError::MultipleNotFound => String::from_str("there can only be one not_found"),
        }
    }
}

/// The route of one variant, or why the variant is rejected.
pub open spec fn variant_route(v: VariantAttributes, prefix: Option<Seq<char>>) -> Result<
    Seq<char>,
    RouteError,
> {
    if v.unnamed_fields {
        Err(RouteError::UnnamedFields)
    } else if v.at_routes@.len() == 0 {
        Err(RouteError::MissingAt)
    } else if v.at_routes@.len() > 1 {
        Err(RouteError::MultipleAt)
    } else {
        let val = v.at_routes@[0]@;
        if val.contains('#') {
            Err(RouteError::HashInRoute)
        } else if !spec_starts_with(val, seq!['/']) && prefix is None {
            Err(RouteError::RelativePath)
        } else {
            match prefix {
                Some(p) => Ok(p + val),
                None => Ok(val),
            }
        }
    }
}

/// The outcome for the first `n` variants: the first rejection, or their routes.
pub open spec fn routes_of(vs: Seq<VariantAttributes>, prefix: Option<Seq<char>>, n: int) -> Result<
    Seq<Seq<char>>,
    RouteError,
>
    decreases n,
{
    if n <= 0 {
        Ok(Seq::empty())
    } else {
        match routes_of(vs, prefix, n - 1) {
            Err(e) => Err(e),
            Ok(rs) => match variant_route(vs[n - 1], prefix) {
                Err(e) => Err(e),
                Ok(r) => Ok(rs.push(r)),
            },
        }
    }
}

/// The number of `not_found` attributes on the first `n` variants.
pub open spec fn not_found_count(vs: Seq<VariantAttributes>, n: int) -> nat
    decreases n,
{
    if n <= 0 {
        0
    } else {
        not_found_count(vs, n - 1) + vs[n - 1].not_found_attrs as nat
    }
}

/// The name of the first of the first `n` variants marked `not_found`.
pub open spec fn first_not_found(vs: Seq<VariantAttributes>, n: int) -> Option<Seq<char>>
    decreases n,
{
    if n <= 0 {
        None
    } else {
        match first_not_found(vs, n - 1) {
            Some(name) => Some(name),
            None => if vs[n - 1].not_found_attrs > 0 {
                Some(vs[n - 1].ident@)
            } else {
                None
            },
        }
    }
}

/// What the derive makes of a route enum: its not-found variant and the
/// routes of all variants, in order; or the first reason to reject it.
pub open spec fn spec_parse_variants(vs: Seq<VariantAttributes>, prefix: Option<Seq<char>>) -> Result<
    (Option<Seq<char>>, Seq<Seq<char>>),
    RouteError,
> {
    match routes_of(vs, prefix, vs.len() as int) {
        Err(e) => Err(e),
        Ok(rs) => if not_found_count(vs, vs.len() as int) > 1 {
            Err(RouteError::MultipleNotFound)
        } else {
            Ok((first_not_found(vs, vs.len() as int), rs))
        },
    }
}

/// Views of strings.
pub open spec fn string_views(s: Seq<String>) -> Seq<Seq<char>> {
    s.map_values(|x: String| x@)
}

/// Checks the route attributes of every variant and builds the routes,
/// prefixed when the enum has a route prefix.
pub fn parse_variants_attributes(variants: &Vec<VariantAttributes>, prefix: Option<&str>) -> (r:
    Result<(Option<String>, Vec<String>), RouteError>)
    ensures
        ({
            let p = match prefix {
                Some(p) => Some(p@),
                None => None,
            };
            match spec_parse_variants(variants@, p) {
                Err(e) => r == Err::<(Option<String>, Vec<String>), RouteError>(e),
                Ok((nf, rs)) => r matches Ok((nf2, rs2)) && string_views(rs2@) == rs && match nf2 {
                    Some(n) => nf == Some(n@),
                    None => nf is None,
                },
            }
        }),
{
    let ghost p = match prefix {
        Some(p) => Some(p@),
        None => None,
    };
    let mut routes: Vec<String> = Vec::new();
    let mut not_found: Option<String> = None;
    // the number of not_found attributes, counted up to two
    let mut not_found_seen: usize = 0;
    let mut i: usize = 0;
    assert(string_views(routes@) =~= Seq::<Seq<char>>::empty());
    while i < variants.len()
        invariant
            0 <= i <= variants@.len(),
            p == (match prefix {
                Some(q) => Some(q@),
                None => None,
            }),
            routes_of(variants@, p, i as int) == Ok::<Seq<Seq<char>>, RouteError>(
                string_views(routes@),
            ),
            not_found_seen as nat == if not_found_count(variants@, i as int) > 2 {
                2
            } else {
                not_found_count(variants@, i as int)
            },
            match not_found {
                Some(n) => first_not_found(variants@, i as int) == Some(n@),
                None => first_not_found(variants@, i as int) is None,
            },
        decreases variants@.len() - i,
    {
        let v = &variants[i];
        if v.unnamed_fields {
            proof { lemma_routes_of_stops(variants@, p, i as int + 1); }
            return Err(RouteError::UnnamedFields);
        }
        if v.at_routes.len() == 0 {
            proof { lemma_routes_of_stops(variants@, p, i as int + 1); }
            return Err(RouteError::MissingAt);
        }
        if v.at_routes.len() > 1 {
            proof { lemma_routes_of_stops(variants@, p, i as int + 1); }
            return Err(RouteError::MultipleAt);
        }
        let val = v.at_routes[0].as_str();
        if contains_char(val, '#') {
            proof { lemma_routes_of_stops(variants@, p, i as int + 1); }
            return Err(RouteError::HashInRoute);
        }
        let starts_with_slash = val.unicode_len() > 0 && val.get_char(0) == '/';
        proof {
            if starts_with_slash {
                assert(val@.take(1) =~= seq!['/']);
            }
            if val@.len() > 0 && val@[0] != '/' {
                assert(val@.take(1)[0] != '/');
            }
        }
        if !starts_with_slash && prefix.is_none() {
            proof { lemma_routes_of_stops(variants@, p, i as int + 1); }
            return Err(RouteError::RelativePath);
        }
        let route = match prefix {
            Some(pre) => join2(pre, val),
            None => String::from_str(val),
        };
        let ghost old_routes = routes@;
        routes.push(route);
        assert(string_views(routes@) =~= string_views(old_routes).push(route@));
        if not_found.is_none() && v.not_found_attrs > 0 {
            not_found = Some(v.ident.clone());
        }
        if not_found_seen < 2 {
            if v.not_found_attrs >= 2 - not_found_seen {
                not_found_seen = 2;
            } else {
                not_found_seen = not_found_seen + v.not_found_attrs;
            }
        }
        i = i + 1;
    }
    if not_found_seen > 1 {
        Err(RouteError::MultipleNotFound)
    } else {
        Ok((not_found, routes))
    }
}

/// The format template of a route: each `:field` and `*field` parameter of
/// the named fields becomes `{field}`, field by field.
pub open spec fn path_template(route: Seq<char>, fields: Seq<Seq<char>>) -> Seq<char>
    decreases fields.len(),
{
    if fields.len() == 0 {
        route
    } else {
        let r = path_template(route, fields.drop_last());
        let f = fields.last();
        let placeholder = "{"@ + f + "}"@;
        spec_replace(spec_replace(r, ":"@ + f, placeholder), "*"@ + f, placeholder)
    }
}

/// Turns a route into the template its path is formatted with.
pub fn to_path_template(route: &str, fields: &Vec<String>) -> (t: String)
    ensures
        t@ == path_template(route@, string_views(fields@)),
{
    proof {
        reveal_strlit(":");
        reveal_strlit("*");
    }
    let mut right = String::from_str(route);
    let mut i: usize = 0;
    while i < fields.len()
        invariant
            0 <= i <= fields@.len(),
            right@ == path_template(route@, string_views(fields@.take(i as int))),
            ":"@.len() == 1,
            "*"@.len() == 1,
        decreases fields@.len() - i,
    {
        let f = fields[i].as_str();
        let placeholder = join3("{", f, "}");
        let colon = join2(":", f);
        let star = join2("*", f);
        let step = replace_all(right.as_str(), colon.as_str(), placeholder.as_str());
        right = replace_all(step.as_str(), star.as_str(), placeholder.as_str());
        assert(string_views(fields@.take(i + 1)).drop_last() =~= string_views(fields@.take(i as int)));
        assert(string_views(fields@.take(i + 1)).last() == fields@[i as int]@);
        i = i + 1;
    }
    assert(fields@.take(fields@.len() as int) =~= fields@);
    right
}

/// An accepted enum has exactly one route per variant.
pub proof fn lemma_one_route_per_variant(vs: Seq<VariantAttributes>, prefix: Option<Seq<char>>, n: int)
    requires
        0 <= n,
        routes_of(vs, prefix, n) is Ok,
    ensures
        routes_of(vs, prefix, n)->Ok_0.len() == n,
    decreases n,
{
    if n > 0 {
        lemma_one_route_per_variant(vs, prefix, n - 1);
    }
}

/// Once a variant is rejected, the whole enum is rejected with that reason.
proof fn lemma_routes_of_stops(vs: Seq<VariantAttributes>, prefix: Option<Seq<char>>, n: int)
    requires
        1 <= n <= vs.len(),
        routes_of(vs, prefix, n - 1) is Ok,
        variant_route(vs[n - 1], prefix) is Err,
    ensures
        forall|m: int|
            n <= m <= vs.len() ==> #[trigger] routes_of(vs, prefix, m) == Err::<
                Seq<Seq<char>>,
                RouteError,
            >(variant_route(vs[n - 1], prefix)->Err_0),
{
    assert forall|m: int| n <= m <= vs.len() implies #[trigger] routes_of(vs, prefix, m) == Err::<
        Seq<Seq<char>>,
        RouteError,
    >(variant_route(vs[n - 1], prefix)->Err_0) by {
        lemma_routes_of_err_persists(vs, prefix, n, m);
    }
}

proof fn lemma_routes_of_err_persists(
    vs: Seq<VariantAttributes>,
    prefix: Option<Seq<char>>,
    n: int,
    m: int,
)
    requires
        1 <= n <= m,
        routes_of(vs, prefix, n - 1) is Ok,
        variant_route(vs[n - 1], prefix) is Err,
    ensures
        routes_of(vs, prefix, m) == Err::<Seq<Seq<char>>, RouteError>(
            variant_route(vs[n - 1], prefix)->Err_0,
        ),
    decreases m,
{
    if m > n {
        lemma_routes_of_err_persists(vs, prefix, n, m - 1);
    }
}


/// A nested item of an attribute's argument list.
#[derive(Debug, Clone)]
pub enum NestedMeta {
    /// A string literal, with its value.
    StrLit(String),
    /// Anything else.
    Other,
}

/// The shape of an attribute's arguments.
#[derive(Debug, Clone)]
pub enum MetaShape {
    /// `#[name(...)]`, with its nested items.
    List(Vec<NestedMeta>),
    /// `#[name]`.
    Path,
    /// `#[name = value]`.
    NameValue,
    /// Arguments that do not parse; carries the parser's message.
    Unparsable(String),
}

/// What the derive reads from an attribute on the route enum itself.
#[derive(Debug, Clone)]
pub struct StructAttribute {
    /// An outer attribute (`#[...]`) rather than an inner one (`#![...]`).
    pub outer: bool,
    /// The attribute is `route_prefix`.
    pub is_route_prefix: bool,
    pub meta: MetaShape,
}

/// Why the `route_prefix` attribute is rejected.
#[derive(Debug, Clone)]
pub enum PrefixError {
    /// The first argument is not a string literal.
    UnexpectedToken,
    /// The argument list is empty.
    MissingPrefix,
    /// The attribute is not written as a list.
    IncorrectFormat,
    /// The arguments do not parse; carries the parser's message.
    Unparsable(String),
}

impl PrefixError {
    /// The human-readable description of the error.
    pub fn message(&self) -> (m: String)
        ensures
            *self is UnexpectedToken ==> m@
                == " Unexpected token: Found an Identifier (meta). Expected a string literal."@,
            *self is MissingPrefix ==> m@ == "You failed to specify a prefix. Exactly one is required."@,
            *self is IncorrectFormat ==> m@
                == "Incorrect format for route_prefix attribute. You must specify the attribute in List format like so: #[route_prefix(\"/dev/\")]"@,
            *self matches PrefixError::Unparsable(e) ==> m@ == e@,
    {
        match self {
            PrefixError::UnexpectedToken => String::from_str(
                " Unexpected token: Found an Identifier (meta). Expected a string literal.",
            ),
            PrefixError::MissingPrefix => String::from_str(
                "You failed to specify a prefix. Exactly one is required.",
            ),
            PrefixError::IncorrectFormat => String::from_str(
                "Incorrect format for route_prefix attribute. You must specify the attribute in List format like so: #[route_prefix(\"/dev/\")]",
            ),
            PrefixError::Unparsable(e) => e.clone(),
        }
    }
}

/// The position of the first outer `route_prefix` attribute from `from` on,
/// or the number of attributes.
pub open spec fn first_prefix_attr(attrs: Seq<StructAttribute>, from: int) -> int
    decreases attrs.len() - from,
{
    if from >= attrs.len() {
        attrs.len() as int
    } else if attrs[from].outer && attrs[from].is_route_prefix {
        from
    } else {
        first_prefix_attr(attrs, from + 1)
    }
}

/// The enum's attributes declare no prefix, or declare one correctly: as a
/// list whose first item is a string literal.
pub open spec fn prefix_accepted(attrs: Seq<StructAttribute>) -> bool {
    let k = first_prefix_attr(attrs, 0);
    k >= attrs.len() || (attrs[k].meta matches MetaShape::List(nested) && nested@.len() > 0
        && nested@[0] is StrLit)
}

/// The prefix the enum declares, if any.
pub open spec fn declared_prefix(attrs: Seq<StructAttribute>) -> Option<Seq<char>> {
    let k = first_prefix_attr(attrs, 0);
    if k < attrs.len() {
        match attrs[k].meta {
            MetaShape::List(nested) => if nested@.len() > 0 {
                match nested@[0] {
                    NestedMeta::StrLit(p) => Some(p@),
                    NestedMeta::Other => None,
                }
            } else {
                None
            },
            _ => None,
        }
    } else {
        None
    }
}

/// `e` is the reason the enum's `route_prefix` attribute is rejected.
pub open spec fn prefix_error(attrs: Seq<StructAttribute>, e: PrefixError) -> bool {
    let k = first_prefix_attr(attrs, 0);
    &&& k < attrs.len()
    &&& match attrs[k].meta {
        MetaShape::List(nested) => if nested@.len() == 0 {
            e is MissingPrefix
        } else {
            nested@[0] is Other && e is UnexpectedToken
        },
        MetaShape::Path => e is IncorrectFormat,
        MetaShape::NameValue => e is IncorrectFormat,
        MetaShape::Unparsable(m) => e matches PrefixError::Unparsable(n) && n@ == m@,
    }
}

/// The view of an optional string.
pub open spec fn opt_view(s: Option<String>) -> Option<Seq<char>> {
    match s {
        Some(v) => Some(v@),
        None => None,
    }
}

/// Reads the route prefix from the enum's attributes: the first outer
/// `route_prefix` attribute, which must be a list starting with a string
/// literal. Without such an attribute there is no prefix.
pub fn parse_struct_attrs(attrs: &Vec<StructAttribute>) -> (r: Result<Option<String>, PrefixError>)
    ensures
        prefix_accepted(attrs@) ==> (r matches Ok(p) && opt_view(p) == declared_prefix(attrs@)),
        !prefix_accepted(attrs@) ==> (r matches Err(e) && prefix_error(attrs@, e)),
{
    let mut k: usize = 0;
    while k < attrs.len() && !(attrs[k].outer && attrs[k].is_route_prefix)
        invariant
            0 <= k <= attrs@.len(),
            first_prefix_attr(attrs@, 0) == first_prefix_attr(attrs@, k as int),
        decreases attrs@.len() - k,
    {
        k = k + 1;
    }
    if k == attrs.len() {
        return Ok(None);
    }
    match &attrs[k].meta {
        MetaShape::List(nested) => {
            if nested.len() == 0 {
                Err(PrefixError::MissingPrefix)
            } else {
                match &nested[0] {
                    NestedMeta::StrLit(p) => Ok(Some(p.clone())),
                    NestedMeta::Other => Err(PrefixError::UnexpectedToken),
                }
            }
        },
        MetaShape::Path => Err(PrefixError::IncorrectFormat),
        MetaShape::NameValue => Err(PrefixError::IncorrectFormat),
        MetaShape::Unparsable(m) => Err(PrefixError::Unparsable(m.clone())),
    }
}

/// The kind of item the route derive is applied to.
#[derive(Debug, Clone, Copy, PartialEq, Eq, Structural)]
pub enum DataKind {
    Enum,
    Struct,
    Union,
}

/// Why the route derive rejects an item.
#[derive(Debug, Clone)]
pub enum RoutableError {
    ExpectedEnumFoundStruct,
    ExpectedEnumFoundUnion,
    Prefix(PrefixError),
    Route(RouteError),
}

/// Reads a route enum: its prefix from its own attributes, then its routes
/// and its not-found variant from the variants. Only enums are accepted.
pub fn parse_routable(kind: DataKind, attrs: &Vec<StructAttribute>, variants: &Vec<VariantAttributes>) -> (r:
    Result<(Option<String>, Vec<String>), RoutableError>)
    ensures
        kind == DataKind::Struct ==> r matches Err(RoutableError::ExpectedEnumFoundStruct),
        kind == DataKind::Union ==> r matches Err(RoutableError::ExpectedEnumFoundUnion),
        kind == DataKind::Enum && !prefix_accepted(attrs@) ==> (r matches Err(RoutableError::Prefix(e))
            && prefix_error(attrs@, e)),
        kind == DataKind::Enum && prefix_accepted(attrs@) ==> match spec_parse_variants(
            variants@,
            declared_prefix(attrs@),
        ) {
            Err(e) => r matches Err(RoutableError::Route(f)) && f == e,
            Ok((nf, rs)) => r matches Ok((nf2, rs2)) && string_views(rs2@) == rs && opt_view(nf2)
                == nf,
        },
{
    match kind {
        DataKind::Struct => Err(RoutableError::ExpectedEnumFoundStruct),
        DataKind::Union => Err(RoutableError::ExpectedEnumFoundUnion),
        DataKind::Enum => {
            let prefix = match parse_struct_attrs(attrs) {
                Ok(p) => p,
                Err(e) => {
                    return Err(RoutableError::Prefix(e));
                },
            };
            let parsed = match &prefix {
                Some(p) => parse_variants_attributes(variants, Some(p.as_str())),
                None => parse_variants_attributes(variants, None),
            };
            match parsed {
                Ok(v) => Ok(v),
                Err(e) => Err(RoutableError::Route(e)),
            }
        },
    }
}

/// The variant a path leads to: the first whose route is exactly the path.
pub fn variant_for_path(routes: &Vec<String>, path: &str) -> (r: Option<usize>)
    ensures
        r matches Some(i) ==> i < routes@.len() && routes@[i as int]@ == path@ && forall|j: int|
            0 <= j < i ==> #[trigger] routes@[j]@ != path@,
        r is None ==> forall|j: int| 0 <= j < routes@.len() ==> #[trigger] routes@[j]@ != path@,
{
    let mut i: usize = 0;
    while i < routes.len()
        invariant
            0 <= i <= routes@.len(),
            forall|j: int| 0 <= j < i ==> #[trigger] routes@[j]@ != path@,
        decreases routes@.len() - i,
    {
        if str_equals(routes[i].as_str(), path) {
            return Some(i);
        }
        i = i + 1;
    }
    None
}


/// With a declared prefix, every accepted variant's route is exactly the
/// prefix followed by its `at` value, whether or not that value starts
/// with `/`; each accepted variant had exactly one `at` value, without `#`.
pub proof fn lemma_prefix_on_every_route(vs: Seq<VariantAttributes>, p: Seq<char>, n: int)
    requires
        0 <= n <= vs.len(),
        routes_of(vs, Some(p), n) is Ok,
    ensures
        routes_of(vs, Some(p), n)->Ok_0.len() == n,
        forall|k: int|
            0 <= k < n ==> #[trigger] routes_of(vs, Some(p), n)->Ok_0[k] == p
                + vs[k].at_routes@[0]@ && vs[k].at_routes@.len() == 1 && !vs[k].unnamed_fields
                && !vs[k].at_routes@[0]@.contains('#'),
    decreases n,
{
    if n > 0 {
        lemma_prefix_on_every_route(vs, p, n - 1);
    }
}

/// Without a prefix, every accepted variant's route is its `at` value as
/// written, and it is absolute: it starts with `/`.
pub proof fn lemma_unprefixed_routes(vs: Seq<VariantAttributes>, n: int)
    requires
        0 <= n <= vs.len(),
        routes_of(vs, None, n) is Ok,
    ensures
        routes_of(vs, None, n)->Ok_0.len() == n,
        forall|k: int|
            0 <= k < n ==> #[trigger] routes_of(vs, None, n)->Ok_0[k] == vs[k].at_routes@[0]@
                && vs[k].at_routes@.len() == 1 && 0 < vs[k].at_routes@[0]@.len()
                && vs[k].at_routes@[0]@[0] == '/',
    decreases n,
{
    if n > 0 {
        lemma_unprefixed_routes(vs, n - 1);
        let val = vs[n - 1].at_routes@[0]@;
        assert(spec_starts_with(val, seq!['/']));
        assert(val.take(1)[0] == '/');
    }
}

} // verus!
