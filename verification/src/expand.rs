use vstd::prelude::*;
use vstd::string::StringExecFns;

use crate::namespace::{text_is, texts, AttrToken, NamespaceAttribute};

verus! {

/// How the `impl` block names its trait; `P` is how the trait's path is held.
pub enum TraitRef<P> {
    /// `impl Type { .. }`: no trait.
    Missing,
    /// `impl !Trait for Type { .. }`.
    Negative,
    /// `impl Trait for Type { .. }`, with the trait's path.
    Positive(P),
}

/// An associated type `type Name<..> = Ty;` inside the `impl` block; `T` is how the type `Ty`
/// is held.
pub struct AssocTypeModel<T> {
    /// How many attributes stand on it.
    pub n_attrs: usize,
    /// Whether it has no visibility modifier.
    pub visibility_inherited: bool,
    /// Whether it is marked `default`.
    pub is_default: bool,
    /// How many generic parameters it declares.
    pub n_generic_params: usize,
    /// Its name.
    pub ident: String,
    /// The type it stands for.
    pub ty: T,
}

/// An item inside the `impl` block.
pub enum ImplMember<T> {
    AssocType(AssocTypeModel<T>),
    /// A function, constant, macro call or anything else.
    Other,
}

/// A segment of the path that names the implementing type.
pub struct PathSegmentModel {
    pub ident: String,
    /// Whether it carries generic arguments (`<..>` or `(..)`).
    pub has_arguments: bool,
}

/// The implementing type.
pub enum SelfTypeModel {
    /// A path type, possibly qualified (`<T as Trait>::Name`) or rooted (`::a::B`).
    Path { has_qself: bool, leading_colon: bool, segments: Vec<PathSegmentModel> },
    /// A reference, tuple, slice or any other type.
    Other,
}

/// The `impl` block that `#[bridge_future]` is applied to; `P` holds trait paths and `T` types.
pub struct ImplItemModel<P, T> {
    pub is_unsafe: bool,
    pub is_default: bool,
    pub n_generic_params: usize,
    pub has_where_clause: bool,
    pub trait_ref: TraitRef<P>,
    pub members: Vec<ImplMember<T>>,
    pub self_ty: SelfTypeModel,
}

/// Why `#[bridge_future]` refuses its input.
#[derive(Clone, Copy, Debug, PartialEq, Eq, Structural)]
pub enum MacroError {
    /// The attribute is neither empty nor `namespace = path`.
    BadNamespace,
    /// The item is not an `impl` block.
    NotAnImpl,
    /// The `impl` is not marked `unsafe`.
    NotUnsafe,
    /// The `impl` is marked `default`.
    MarkedDefault,
    /// The `impl` declares generic parameters.
    GenericParams,
    /// The `impl` has a `where` clause.
    WhereClause,
    /// The `impl` names no trait, or a negative one.
    NotATraitImpl,
    /// The `impl` holds other than a single associated type.
    NotSingleItem,
    /// The associated type carries attributes.
    AttrsOnOutput,
    /// The associated type has a visibility modifier.
    VisibilityOnOutput,
    /// The associated type is marked `default`.
    DefaultOnOutput,
    /// The associated type declares generic parameters.
    GenericsOnOutput,
    /// The associated type is not named `Output`.
    NotNamedOutput,
    /// The implementing type is not a single plain identifier.
    NotSingleType,
}

/// The message that each refusal is reported with.
pub open spec fn error_message(e: MacroError) -> Seq<char> {
    match e {
        MacroError::BadNamespace => "expected possible namespace attribute"@,
        MacroError::NotAnImpl => "expected implementation of `Future`"@,
        MacroError::NotUnsafe => "implementation must be marked `unsafe`"@,
        MacroError::MarkedDefault => "implementation must not be marked default"@,
        MacroError::GenericParams => "generic bridged futures are unsupported"@,
        MacroError::WhereClause => "generic bridged futures are unsupported"@,
        MacroError::NotATraitImpl => "must implement the `Future` trait"@,
        MacroError::NotSingleItem => "expected implementation to contain a single item, `type Output = ...`"@,
        MacroError::AttrsOnOutput => "attributes on the `type Output = ...` or declaration are not supported"@,
        MacroError::VisibilityOnOutput => "`pub` or `crate` visibility modifiers on the `type Output = ...` declaration are not supported"@,
        MacroError::DefaultOnOutput => "`default` specifier on the `type Output = ...` declaration is not supported"@,
        MacroError::GenericsOnOutput => "generics on the `type Output = ...` declaration are not supported"@,
        MacroError::NotNamedOutput => "implementation must contain an associated type definition named `Output`"@,
        MacroError::NotSingleType => "expected `impl` declaration to implement a single type"@,
    }
}

impl MacroError {
    /// The message that the refusal is reported with.
    pub fn message(&self) -> (m: &'static str)
        ensures
            m@ == error_message(*self),
    {
        match self {
            MacroError::BadNamespace => "expected possible namespace attribute",
            MacroError::NotAnImpl => "expected implementation of `Future`",
            MacroError::NotUnsafe => "implementation must be marked `unsafe`",
            MacroError::MarkedDefault => "implementation must not be marked default",
            MacroError::GenericParams => "generic bridged futures are unsupported",
            MacroError::WhereClause => "generic bridged futures are unsupported",
            MacroError::NotATraitImpl => "must implement the `Future` trait",
            MacroError::NotSingleItem => "expected implementation to contain a single item, `type Output = ...`",
            MacroError::AttrsOnOutput => "attributes on the `type Output = ...` or declaration are not supported",
            MacroError::VisibilityOnOutput => "`pub` or `crate` visibility modifiers on the `type Output = ...` declaration are not supported",
            MacroError::DefaultOnOutput => "`default` specifier on the `type Output = ...` declaration is not supported",
            MacroError::GenericsOnOutput => "generics on the `type Output = ...` declaration are not supported",
            MacroError::NotNamedOutput => "implementation must contain an associated type definition named `Output`",
            MacroError::NotSingleType => "expected `impl` declaration to implement a single type",
        }
    }
}

/// The identifier that the implementing type is, when it is a path of one plain segment.
pub open spec fn self_ident(t: SelfTypeModel) -> Option<Seq<char>> {
    match t {
        SelfTypeModel::Path { has_qself, leading_colon, segments } => {
            if !has_qself && !leading_colon && segments@.len() == 1 && !segments@[0].has_arguments {
                Some(segments@[0].ident@)
            } else {
                None
            }
        },
        SelfTypeModel::Other => None,
    }
}

/// Where an associated type falls short of `type Output = ..;`, if it does.
pub open spec fn output_fault<T>(t: AssocTypeModel<T>) -> Option<MacroError> {
    if t.n_attrs != 0 {
        Some(MacroError::AttrsOnOutput)
    } else if !t.visibility_inherited {
        Some(MacroError::VisibilityOnOutput)
    } else if t.is_default {
        Some(MacroError::DefaultOnOutput)
    } else if t.n_generic_params != 0 {
        Some(MacroError::GenericsOnOutput)
    } else if t.ident@ != "Output"@ {
        Some(MacroError::NotNamedOutput)
    } else {
        None
    }
}

/// The checks of the `impl` block, in the order in which they are made: the name of the
/// future type when all pass, else the first that fails.
pub open spec fn check_item<P, T>(item: ImplItemModel<P, T>) -> Result<Seq<char>, MacroError> {
    if !item.is_unsafe {
        Err(MacroError::NotUnsafe)
    } else if item.is_default {
        Err(MacroError::MarkedDefault)
    } else if item.n_generic_params != 0 {
        Err(MacroError::GenericParams)
    } else if item.has_where_clause {
        Err(MacroError::WhereClause)
    } else if !(item.trait_ref is Positive) {
        Err(MacroError::NotATraitImpl)
    } else if item.members@.len() != 1 {
        Err(MacroError::NotSingleItem)
    } else {
        match item.members@[0] {
            ImplMember::AssocType(t) => match output_fault(t) {
                Some(e) => Err(e),
                None => match self_ident(item.self_ty) {
                    Some(name) => Ok(name),
                    None => Err(MacroError::NotSingleType),
                },
            },
            ImplMember::Other => Err(MacroError::NotSingleItem),
        }
    }
}

/// The path of the trait that an `impl` block implements.
pub open spec fn trait_path_of<P, T>(item: ImplItemModel<P, T>) -> P
    recommends
        item.trait_ref is Positive,
{
    match item.trait_ref {
        TraitRef::Positive(path) => path,
        _ => arbitrary(),
    }
}

/// The type that the `impl` block's single associated type stands for.
pub open spec fn output_of<P, T>(item: ImplItemModel<P, T>) -> T
    recommends
        item.members@.len() == 1,
        item.members@[0] is AssocType,
{
    match item.members@[0] {
        ImplMember::AssocType(t) => t.ty,
        ImplMember::Other => arbitrary(),
    }
}

/// Each segment of the namespace followed by `sep`.
pub open spec fn segments_prefix(segments: Seq<Seq<char>>, sep: Seq<char>) -> Seq<char>
    decreases segments.len(),
{
    if segments.len() == 0 {
        Seq::empty()
    } else {
        segments_prefix(segments.drop_last(), sep) + segments.last() + sep
    }
}

/// The names, trait path (`P`) and output type (`T`) that the expansion is built from.
pub struct AstPieces<P, T> {
    /// The name of the future type.
    pub future: String,
    /// The name of the future type with its C++ namespace, joined by `::`.
    pub qualified_name: String,
    /// The Rust name of the future's drop function.
    pub drop_in_place_ident: String,
    /// The C++ link name of the future's drop function.
    pub drop_in_place_link_name: String,
    /// The Rust name of the future's poll function.
    pub poll_ident: String,
    /// The C++ link name of the future's poll function.
    pub poll_link_name: String,
    /// The path of the trait that the future implements.
    pub trait_path: P,
    /// The future's output type.
    pub output: T,
}

/// The names built for the future type `future` in the namespace `ns`.
pub open spec fn pieces_match<P, T>(p: AstPieces<P, T>, ns: Seq<Seq<char>>, future: Seq<char>) -> bool {
    &&& p.future@ == future
    &&& p.qualified_name@ == segments_prefix(ns, "::"@) + future
    &&& p.drop_in_place_ident@ == "kjrs_"@ + segments_prefix(ns, "_"@) + future + "_drop_in_place"@
    &&& p.drop_in_place_link_name@ == "kjrs_"@ + segments_prefix(ns, "$"@) + future + "_drop_in_place"@
    &&& p.poll_ident@ == "kjrs_"@ + segments_prefix(ns, "_"@) + future + "_poll"@
    &&& p.poll_link_name@ == "kjrs_"@ + segments_prefix(ns, "$"@) + future + "_poll"@
}

/// Writes each segment followed by `sep`.
fn join_prefix(segments: &Vec<String>, sep: &str) -> (s: String)
    ensures
        s@ == segments_prefix(texts(segments@), sep@),
{
    let mut acc = String::new();
    for i in 0..segments.len()
        invariant
            acc@ == segments_prefix(texts(segments@).take(i as int), sep@),
    {
        acc.append(segments[i].as_str());
        acc.append(sep);
        proof {
            assert(texts(segments@).take(i + 1).drop_last() =~= texts(segments@).take(i as int));
        }
    }
    proof {
        assert(texts(segments@).take(segments@.len() as int) =~= texts(segments@));
    }
    acc
}

/// `"kjrs_" + prefix + future + suffix`.
fn symbol(prefix: &String, future: &String, suffix: &str) -> (s: String)
    ensures
        s@ == "kjrs_"@ + prefix@ + future@ + suffix@,
{
    let mut s = "kjrs_".to_owned();
    s.append(prefix.as_str());
    s.append(future.as_str());
    s.append(suffix);
    s
}

/// Checks the associated type against `type Output = ..;`.
fn check_output<T>(t: &AssocTypeModel<T>) -> (r: Option<MacroError>)
    ensures
        r == output_fault(*t),
{
    if t.n_attrs != 0 {
        Some(MacroError::AttrsOnOutput)
    } else if !t.visibility_inherited {
        Some(MacroError::VisibilityOnOutput)
    } else if t.is_default {
        Some(MacroError::DefaultOnOutput)
    } else if t.n_generic_params != 0 {
        Some(MacroError::GenericsOnOutput)
    } else if !text_is(&t.ident, "Output") {
        Some(MacroError::NotNamedOutput)
    } else {
        None
    }
}

/// The identifier of the implementing type, when it is one plain identifier.
fn future_ident(t: &SelfTypeModel) -> (r: Option<String>)
    ensures
        match r {
            Some(s) => self_ident(*t) == Some(s@),
            None => self_ident(*t) is None,
        },
{
    match t {
        SelfTypeModel::Path { has_qself, leading_colon, segments } => {
            if !*has_qself && !*leading_colon && segments.len() == 1 && !segments[0].has_arguments {
                Some(segments[0].ident.clone())
            } else {
                None
            }
        },
        SelfTypeModel::Other => None,
    }
}

/// Makes the checks of the `impl` block in order, and gives the future type's name or the
/// first check that fails.
pub fn check_impl<P, T>(item: &ImplItemModel<P, T>) -> (r: Result<String, MacroError>)
    ensures
        match r {
            Ok(name) => check_item(*item) == Ok::<Seq<char>, MacroError>(name@),
            Err(e) => check_item(*item) == Err::<Seq<char>, MacroError>(e),
        },
{
    if !item.is_unsafe {
        return Err(MacroError::NotUnsafe);
    }
    if item.is_default {
        return Err(MacroError::MarkedDefault);
    }
    if item.n_generic_params != 0 {
        return Err(MacroError::GenericParams);
    }
    if item.has_where_clause {
        return Err(MacroError::WhereClause);
    }
    match &item.trait_ref {
        TraitRef::Positive(_) => {},
        _ => return Err(MacroError::NotATraitImpl),
    }
    if item.members.len() != 1 {
        return Err(MacroError::NotSingleItem);
    }
    match &item.members[0] {
        ImplMember::AssocType(t) => {
            if let Some(e) = check_output(t) {
                return Err(e);
            }
        },
        ImplMember::Other => return Err(MacroError::NotSingleItem),
    }
    match future_ident(&item.self_ty) {
        Some(name) => Ok(name),
        None => Err(MacroError::NotSingleType),
    }
}

impl<P, T> AstPieces<P, T> {
    /// Builds the names for the future type `future` declared in the namespace `namespace`,
    /// and carries the trait path and output type along.
    pub fn for_future(namespace: &NamespaceAttribute, future: String, trait_path: P, output: T) -> (p: AstPieces<P, T>)
        ensures
            pieces_match(p, texts(namespace.segments@), future@),
            p.trait_path == trait_path,
            p.output == output,
    {
        let scoped = join_prefix(&namespace.segments, "::");
        let underscored = join_prefix(&namespace.segments, "_");
        let dollared = join_prefix(&namespace.segments, "$");
        let qualified_name = scoped.concat(future.as_str());
        let drop_in_place_ident = symbol(&underscored, &future, "_drop_in_place");
        let drop_in_place_link_name = symbol(&dollared, &future, "_drop_in_place");
        let poll_ident = symbol(&underscored, &future, "_poll");
        let poll_link_name = symbol(&dollared, &future, "_poll");
        AstPieces {
            future,
            qualified_name,
            drop_in_place_ident,
            drop_in_place_link_name,
            poll_ident,
            poll_link_name,
            trait_path,
            output,
        }
    }

    /// Reads the parsed attribute and `impl` block (`None` when either failed to parse) and
    /// gives the names of the expansion, or why the input is refused: a malformed attribute
    /// first, then an item that is no `impl` block, then the first check of the `impl` that
    /// fails.
    pub fn from_parts(namespace: Option<NamespaceAttribute>, item: Option<ImplItemModel<P, T>>) -> (r: Result<AstPieces<P, T>, MacroError>)
        ensures
            match namespace {
                None => r == Err::<AstPieces<P, T>, MacroError>(MacroError::BadNamespace),
                Some(ns) => match item {
                    None => r == Err::<AstPieces<P, T>, MacroError>(MacroError::NotAnImpl),
                    Some(it) => match check_item(it) {
                        Ok(future) => r matches Ok(p) && pieces_match(p, texts(ns.segments@), future)
                            && p.trait_path == trait_path_of(it) && p.output == output_of(it),
                        Err(e) => r == Err::<AstPieces<P, T>, MacroError>(e),
                    },
                },
            },
    {
        let namespace = match namespace {
            Some(ns) => ns,
            None => return Err(MacroError::BadNamespace),
        };
        let item = match item {
            Some(it) => it,
            None => return Err(MacroError::NotAnImpl),
        };
        let future = match check_impl(&item) {
            Ok(future) => future,
            Err(e) => return Err(e),
        };
        let ghost checked = item;
        let ImplItemModel { trait_ref, mut members, .. } = item;
        let trait_path = match trait_ref {
            TraitRef::Positive(path) => path,
            _ => vstd::pervasive::unreached(),
        };
        let output = match members.remove(0) {
            ImplMember::AssocType(t) => t.ty,
            ImplMember::Other => vstd::pervasive::unreached(),
        };
        proof {
            assert(trait_path == trait_path_of(checked));
            assert(output == output_of(checked));
        }
        Ok(AstPieces::for_future(&namespace, future, trait_path, output))
    }

    /// Reads the tokens of the attribute and the parsed `impl` block (`None` when the item is
    /// no `impl` block) and gives the names of the expansion, or why the input is refused.
    pub fn from_token_streams(attr: &Vec<AttrToken>, item: Option<ImplItemModel<P, T>>) -> (r: Result<AstPieces<P, T>, MacroError>)
        ensures
            match crate::namespace::namespace_of(attr@, crate::namespace::classify(attr@)) {
                None => r == Err::<AstPieces<P, T>, MacroError>(MacroError::BadNamespace),
                Some(ns) => match item {
                    None => r == Err::<AstPieces<P, T>, MacroError>(MacroError::NotAnImpl),
                    Some(it) => match check_item(it) {
                        Ok(future) => r matches Ok(p) && pieces_match(p, ns, future)
                            && p.trait_path == trait_path_of(it) && p.output == output_of(it),
                        Err(e) => r == Err::<AstPieces<P, T>, MacroError>(e),
                    },
                },
            },
    {
        let namespace = NamespaceAttribute::parse(attr);
        AstPieces::from_parts(namespace, item)
    }
}

/// With no namespace the qualified name is the future's own name, and each Rust name is the
/// same as its C++ link name.
pub proof fn lemma_names_without_namespace<P, T>(p: AstPieces<P, T>, future: Seq<char>)
    requires
        pieces_match(p, Seq::empty(), future),
    ensures
        p.qualified_name@ == future,
        p.drop_in_place_ident@ == p.drop_in_place_link_name@,
        p.poll_ident@ == p.poll_link_name@,
{
    assert(p.qualified_name@ =~= future);
}

/// The two functions exported for a future never share a name, neither in Rust nor at link
/// time.
pub proof fn lemma_exported_names_distinct<P, T>(p: AstPieces<P, T>, ns: Seq<Seq<char>>, future: Seq<char>)
    requires
        pieces_match(p, ns, future),
    ensures
        p.drop_in_place_ident@ != p.poll_ident@,
        p.drop_in_place_link_name@ != p.poll_link_name@,
{
    reveal_strlit("_drop_in_place");
    reveal_strlit("_poll");
    assert(p.drop_in_place_ident@.len() != p.poll_ident@.len());
    assert(p.drop_in_place_link_name@.len() != p.poll_link_name@.len());
}

/// The total number of characters in the segments.
pub open spec fn total_len(segments: Seq<Seq<char>>) -> nat
    decreases segments.len(),
{
    if segments.len() == 0 {
        0
    } else {
        total_len(segments.drop_last()) + segments.last().len()
    }
}

/// The namespace prefix holds every segment, in order, each followed by the separator: it is
/// empty for no segments, adding a segment appends that segment and one separator, and its
/// length is the segments' lengths plus one separator per segment.
pub proof fn lemma_prefix_holds_every_segment(segments: Seq<Seq<char>>, s: Seq<char>, sep: Seq<char>)
    ensures
        segments_prefix(Seq::empty(), sep) == Seq::<char>::empty(),
        segments_prefix(segments.push(s), sep) == segments_prefix(segments, sep) + s + sep,
        segments_prefix(segments, sep).len() == total_len(segments) + segments.len() * sep.len(),
    decreases segments.len(),
{
    assert(segments.push(s).drop_last() =~= segments);
    if segments.len() > 0 {
        lemma_prefix_holds_every_segment(segments.drop_last(), segments.last(), sep);
        let n = segments.len() as int;
        let k = sep.len() as int;
        let rest = segments.drop_last();
        assert(rest.len() == n - 1);
        assert(segments_prefix(rest, sep).len() == total_len(rest) + (n - 1) * k);
        assert(segments_prefix(segments, sep) == segments_prefix(rest, sep) + segments.last() + sep);
        assert((n - 1) * k + k == n * k) by (nonlinear_arith);
        assert(total_len(segments) == total_len(rest) + segments.last().len());
        assert(segments.len() * sep.len() == n * k);
        assert(segments_prefix(segments, sep).len() == total_len(rest) + (n - 1) * k
            + segments.last().len() + k);
    } else {
        assert(segments.len() * sep.len() == 0) by (nonlinear_arith)
            requires
                segments.len() == 0,
        ;
    }
}

/// A namespace segment `s` added to `ns` stands, with its separator, between the names built
/// for `ns` and the future's name: `ns::s::F`, `kjrs_ns_s_F_poll`, `kjrs_ns$s$F_poll`, and the
/// same for the drop function; for a one-level namespace `s` that is `s::F`, `kjrs_s_F_poll`,
/// `kjrs_s$F_poll`, `kjrs_s_F_drop_in_place` and `kjrs_s$F_drop_in_place`.
pub proof fn lemma_names_with_segment<P, T>(p: AstPieces<P, T>, ns: Seq<Seq<char>>, s: Seq<char>, future: Seq<char>)
    requires
        pieces_match(p, ns.push(s), future),
    ensures
        p.future@ == future,
        p.qualified_name@ == segments_prefix(ns, "::"@) + s + "::"@ + future,
        p.poll_ident@ == "kjrs_"@ + segments_prefix(ns, "_"@) + s + "_"@ + future + "_poll"@,
        p.poll_link_name@ == "kjrs_"@ + segments_prefix(ns, "$"@) + s + "$"@ + future + "_poll"@,
        p.drop_in_place_ident@ == "kjrs_"@ + segments_prefix(ns, "_"@) + s + "_"@ + future + "_drop_in_place"@,
        p.drop_in_place_link_name@ == "kjrs_"@ + segments_prefix(ns, "$"@) + s + "$"@ + future + "_drop_in_place"@,
        ns.len() == 0 ==> p.qualified_name@ == s + "::"@ + future,
        ns.len() == 0 ==> p.poll_ident@ == "kjrs_"@ + s + "_"@ + future + "_poll"@,
        ns.len() == 0 ==> p.poll_link_name@ == "kjrs_"@ + s + "$"@ + future + "_poll"@,
        ns.len() == 0 ==> p.drop_in_place_ident@ == "kjrs_"@ + s + "_"@ + future + "_drop_in_place"@,
        ns.len() == 0 ==> p.drop_in_place_link_name@ == "kjrs_"@ + s + "$"@ + future + "_drop_in_place"@,
{
    lemma_prefix_holds_every_segment(ns, s, "::"@);
    lemma_prefix_holds_every_segment(ns, s, "_"@);
    lemma_prefix_holds_every_segment(ns, s, "$"@);
    if ns.len() == 0 {
        assert(ns =~= Seq::<Seq<char>>::empty());
    }
    assert(p.qualified_name@ =~= segments_prefix(ns, "::"@) + s + "::"@ + future);
    assert(p.poll_ident@ =~= "kjrs_"@ + segments_prefix(ns, "_"@) + s + "_"@ + future + "_poll"@);
    assert(p.poll_link_name@ =~= "kjrs_"@ + segments_prefix(ns, "$"@) + s + "$"@ + future + "_poll"@);
    assert(p.drop_in_place_ident@ =~= "kjrs_"@ + segments_prefix(ns, "_"@) + s + "_"@ + future + "_drop_in_place"@);
    assert(p.drop_in_place_link_name@ =~= "kjrs_"@ + segments_prefix(ns, "$"@) + s + "$"@ + future + "_drop_in_place"@);
    if ns.len() == 0 {
        assert(p.qualified_name@ =~= s + "::"@ + future);
        assert(p.poll_ident@ =~= "kjrs_"@ + s + "_"@ + future + "_poll"@);
        assert(p.poll_link_name@ =~= "kjrs_"@ + s + "$"@ + future + "_poll"@);
        assert(p.drop_in_place_ident@ =~= "kjrs_"@ + s + "_"@ + future + "_drop_in_place"@);
        assert(p.drop_in_place_link_name@ =~= "kjrs_"@ + s + "$"@ + future + "_drop_in_place"@);
    }
}

/// What the checks accept and refuse: an `impl` that is not `unsafe` is always refused with
/// `NotUnsafe`; an accepted `impl` is `unsafe`, not `default`, has neither generic parameters
/// nor a `where` clause, implements a (positive) trait, and holds exactly one associated type,
/// named `Output`, without attributes, visibility, `default` or generics, for an implementing
/// type that is one plain identifier, whose name is what is returned; and every such `impl` is
/// accepted.
pub proof fn lemma_accepted_impls<P, T>(item: ImplItemModel<P, T>)
    ensures
        !item.is_unsafe ==> check_item(item) == Err::<Seq<char>, MacroError>(MacroError::NotUnsafe),
        ({
            let shape = {
                &&& item.is_unsafe
                &&& !item.is_default
                &&& item.n_generic_params == 0
                &&& !item.has_where_clause
                &&& item.trait_ref is Positive
                &&& item.members@.len() == 1
                &&& item.members@[0] matches ImplMember::AssocType(t)
                &&& t.n_attrs == 0
                &&& t.visibility_inherited
                &&& !t.is_default
                &&& t.n_generic_params == 0
                &&& t.ident@ == "Output"@
                &&& item.self_ty matches SelfTypeModel::Path { has_qself, leading_colon, segments }
                &&& !has_qself
                &&& !leading_colon
                &&& segments@.len() == 1
                &&& !segments@[0].has_arguments
            };
            &&& check_item(item) is Ok <==> shape
            &&& (shape ==> check_item(item) == Ok::<Seq<char>, MacroError>(
                match item.self_ty {
                    SelfTypeModel::Path { segments, .. } => segments@[0].ident@,
                    SelfTypeModel::Other => Seq::empty(),
                },
            ))
        }),
{
}

} // verus!
