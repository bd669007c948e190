use kj_rs::expand::{
    check_impl, AssocTypeModel, AstPieces, ImplItemModel, ImplMember, MacroError,
    PathSegmentModel, SelfTypeModel, TraitRef,
};
use kj_rs::namespace::{AttrToken, NamespaceAttribute};

fn ident(s: &str) -> AttrToken {
    AttrToken::Ident(s.to_string())
}

fn punct(c: char, joint: bool) -> AttrToken {
    AttrToken::Punct(c, joint)
}

fn sep() -> Vec<AttrToken> {
    vec![punct(':', true), punct(':', false)]
}

fn namespace_tokens(segments: &[&str], rooted: bool) -> Vec<AttrToken> {
    let mut toks = vec![ident("namespace"), punct('=', false)];
    if rooted {
        toks.extend(sep());
    }
    for (i, s) in segments.iter().enumerate() {
        if i > 0 {
            toks.extend(sep());
        }
        toks.push(ident(s));
    }
    toks
}

fn segments(attr: &NamespaceAttribute) -> Vec<&str> {
    attr.segments.iter().map(|s| s.as_str()).collect()
}

type Item = ImplItemModel<String, String>;

fn output_type() -> AssocTypeModel<String> {
    AssocTypeModel {
        n_attrs: 0,
        visibility_inherited: true,
        is_default: false,
        n_generic_params: 0,
        ident: "Output".to_string(),
        ty: "Result<String, Infallible>".to_string(),
    }
}

fn future_item(name: &str) -> Item {
    ImplItemModel {
        is_unsafe: true,
        is_default: false,
        n_generic_params: 0,
        has_where_clause: false,
        trait_ref: TraitRef::Positive("Future".to_string()),
        members: vec![ImplMember::AssocType(output_type())],
        self_ty: SelfTypeModel::Path {
            has_qself: false,
            leading_colon: false,
            segments: vec![PathSegmentModel { ident: name.to_string(), has_arguments: false }],
        },
    }
}

fn refusal(attr: &Vec<AttrToken>, item: Option<Item>) -> MacroError {
    match AstPieces::from_token_streams(attr, item) {
        Err(e) => e,
        Ok(_) => panic!("expected a refusal"),
    }
}

#[test]
fn empty_attribute_has_no_namespace() {
    let attr = NamespaceAttribute::parse(&vec![]).expect("empty attribute");
    assert!(attr.segments.is_empty());
}

#[test]
fn namespace_attribute_is_read() {
    let attr = NamespaceAttribute::parse(&namespace_tokens(&["mycompany", "myproject"], false))
        .expect("well-formed attribute");
    assert_eq!(segments(&attr), vec!["mycompany", "myproject"]);
}

#[test]
fn rooted_namespace_attribute_is_read() {
    let attr = NamespaceAttribute::parse(&namespace_tokens(&["kj", "rs"], true))
        .expect("well-formed attribute");
    assert_eq!(segments(&attr), vec!["kj", "rs"]);
}

#[test]
fn path_keywords_are_segments() {
    let attr = NamespaceAttribute::parse(&namespace_tokens(&["crate", "self", "super", "Self"], false))
        .expect("path keywords are segments");
    assert_eq!(segments(&attr), vec!["crate", "self", "super", "Self"]);
}

#[test]
fn reserved_keyword_is_no_segment() {
    assert!(NamespaceAttribute::parse(&namespace_tokens(&["a", "fn"], false)).is_none());
    assert!(NamespaceAttribute::parse(&namespace_tokens(&["_"], false)).is_none());
}

#[test]
fn identifier_classification_follows_syn_keywords() {
    assert!(NamespaceAttribute::parse(&namespace_tokens(&["async"], false)).is_none());
    assert!(NamespaceAttribute::parse(&namespace_tokens(&["yield"], false)).is_none());
    let attr = NamespaceAttribute::parse(&namespace_tokens(&["$crate", "union", "r#fn"], false))
        .expect("identifiers that syn accepts");
    assert_eq!(segments(&attr), vec!["$crate", "union", "r#fn"]);
}

#[test]
fn classified_parse_follows_classification() {
    let toks = namespace_tokens(&["a", "b"], false);
    let all = vec![true; toks.len()];
    let attr = NamespaceAttribute::parse_classified(&toks, &all).expect("accepted");
    assert_eq!(segments(&attr), vec!["a", "b"]);
    let mut b_rejected = all.clone();
    b_rejected[5] = false;
    assert!(NamespaceAttribute::parse_classified(&toks, &b_rejected).is_none());
}

#[test]
fn malformed_attributes_are_refused() {
    assert!(NamespaceAttribute::parse(&vec![ident("namespace")]).is_none());
    assert!(NamespaceAttribute::parse(&vec![ident("ns"), punct('=', false), ident("a")]).is_none());
    assert!(NamespaceAttribute::parse(&vec![ident("namespace"), punct('=', false)]).is_none());
    let mut trailing = namespace_tokens(&["a"], false);
    trailing.extend(sep());
    assert!(NamespaceAttribute::parse(&trailing).is_none());
    let mut extra = namespace_tokens(&["a"], false);
    extra.push(ident("b"));
    assert!(NamespaceAttribute::parse(&extra).is_none());
    let unjoined = vec![
        ident("namespace"),
        punct('=', false),
        ident("a"),
        punct(':', false),
        punct(':', false),
        ident("b"),
    ];
    assert!(NamespaceAttribute::parse(&unjoined).is_none());
    let literal = vec![ident("namespace"), punct('=', false), AttrToken::Other];
    assert!(NamespaceAttribute::parse(&literal).is_none());
}

#[test]
fn names_without_namespace() {
    let pieces = AstPieces::from_token_streams(&vec![], Some(future_item("RustFutureString")))
        .unwrap_or_else(|_| panic!("accepted"));
    assert_eq!(pieces.future, "RustFutureString");
    assert_eq!(pieces.qualified_name, "RustFutureString");
    assert_eq!(pieces.drop_in_place_ident, "kjrs_RustFutureString_drop_in_place");
    assert_eq!(pieces.drop_in_place_link_name, "kjrs_RustFutureString_drop_in_place");
    assert_eq!(pieces.poll_ident, "kjrs_RustFutureString_poll");
    assert_eq!(pieces.poll_link_name, "kjrs_RustFutureString_poll");
    assert_eq!(pieces.trait_path, "Future");
    assert_eq!(pieces.output, "Result<String, Infallible>");
}

#[test]
fn names_with_namespace() {
    let attr = namespace_tokens(&["mycompany", "myproject"], false);
    let pieces = AstPieces::from_token_streams(&attr, Some(future_item("RustFutureStringNamespaced")))
        .unwrap_or_else(|_| panic!("accepted"));
    assert_eq!(pieces.qualified_name, "mycompany::myproject::RustFutureStringNamespaced");
    assert_eq!(
        pieces.drop_in_place_ident,
        "kjrs_mycompany_myproject_RustFutureStringNamespaced_drop_in_place"
    );
    assert_eq!(
        pieces.drop_in_place_link_name,
        "kjrs_mycompany$myproject$RustFutureStringNamespaced_drop_in_place"
    );
    assert_eq!(pieces.poll_ident, "kjrs_mycompany_myproject_RustFutureStringNamespaced_poll");
    assert_eq!(pieces.poll_link_name, "kjrs_mycompany$myproject$RustFutureStringNamespaced_poll");
    assert_eq!(pieces.trait_path, "Future");
    assert_eq!(pieces.output, "Result<String, Infallible>");
}

#[test]
fn trait_path_and_output_are_carried() {
    let mut item = future_item("BoxFutureI32");
    item.trait_ref = TraitRef::Positive("::std::future::Future".to_string());
    item.members = vec![ImplMember::AssocType(AssocTypeModel {
        ty: "Result<i32, Error>".to_string(),
        ..output_type()
    })];
    let pieces = AstPieces::from_token_streams(&vec![], Some(item))
        .unwrap_or_else(|_| panic!("accepted"));
    assert_eq!(pieces.trait_path, "::std::future::Future");
    assert_eq!(pieces.output, "Result<i32, Error>");
    assert_eq!(pieces.future, "BoxFutureI32");
}

#[test]
fn bad_namespace_is_reported_first() {
    assert_eq!(refusal(&vec![ident("oops")], None::<Item>), MacroError::BadNamespace);
    assert_eq!(
        MacroError::BadNamespace.message(),
        "expected possible namespace attribute"
    );
}

#[test]
fn non_impl_item_is_refused() {
    assert_eq!(refusal(&vec![], None::<Item>), MacroError::NotAnImpl);
    assert_eq!(MacroError::NotAnImpl.message(), "expected implementation of `Future`");
}

#[test]
fn impl_checks_in_order() {
    let mut item = future_item("F");
    item.is_unsafe = false;
    item.is_default = true;
    assert_eq!(refusal(&vec![], Some(item)), MacroError::NotUnsafe);
    assert_eq!(MacroError::NotUnsafe.message(), "implementation must be marked `unsafe`");

    let mut item = future_item("F");
    item.is_default = true;
    assert_eq!(refusal(&vec![], Some(item)), MacroError::MarkedDefault);
    assert_eq!(MacroError::MarkedDefault.message(), "implementation must not be marked default");

    let mut item = future_item("F");
    item.n_generic_params = 1;
    assert_eq!(refusal(&vec![], Some(item)), MacroError::GenericParams);
    assert_eq!(MacroError::GenericParams.message(), "generic bridged futures are unsupported");

    let mut item = future_item("F");
    item.has_where_clause = true;
    assert_eq!(refusal(&vec![], Some(item)), MacroError::WhereClause);
    assert_eq!(MacroError::WhereClause.message(), "generic bridged futures are unsupported");
}

#[test]
fn impl_must_name_a_trait() {
    let mut item = future_item("F");
    item.trait_ref = TraitRef::Missing;
    assert_eq!(refusal(&vec![], Some(item)), MacroError::NotATraitImpl);
    let mut item = future_item("F");
    item.trait_ref = TraitRef::Negative;
    assert_eq!(refusal(&vec![], Some(item)), MacroError::NotATraitImpl);
    assert_eq!(MacroError::NotATraitImpl.message(), "must implement the `Future` trait");
}

#[test]
fn impl_must_hold_one_associated_type() {
    let mut item = future_item("F");
    item.members.push(ImplMember::Other);
    assert_eq!(refusal(&vec![], Some(item)), MacroError::NotSingleItem);
    let mut item = future_item("F");
    item.members = vec![];
    assert_eq!(refusal(&vec![], Some(item)), MacroError::NotSingleItem);
    let mut item = future_item("F");
    item.members = vec![ImplMember::Other];
    assert_eq!(refusal(&vec![], Some(item)), MacroError::NotSingleItem);
    assert_eq!(
        MacroError::NotSingleItem.message(),
        "expected implementation to contain a single item, `type Output = ...`"
    );
}

fn with_output(f: impl Fn(&mut AssocTypeModel<String>)) -> Item {
    let mut t = output_type();
    f(&mut t);
    let mut item = future_item("F");
    item.members = vec![ImplMember::AssocType(t)];
    item
}

#[test]
fn output_type_checks() {
    assert_eq!(refusal(&vec![], Some(with_output(|t| t.n_attrs = 1))), MacroError::AttrsOnOutput);
    assert_eq!(
        refusal(&vec![], Some(with_output(|t| t.visibility_inherited = false))),
        MacroError::VisibilityOnOutput
    );
    assert_eq!(refusal(&vec![], Some(with_output(|t| t.is_default = true))), MacroError::DefaultOnOutput);
    assert_eq!(
        refusal(&vec![], Some(with_output(|t| t.n_generic_params = 2))),
        MacroError::GenericsOnOutput
    );
    assert_eq!(
        refusal(&vec![], Some(with_output(|t| t.ident = "Item".to_string()))),
        MacroError::NotNamedOutput
    );
    assert_eq!(
        MacroError::AttrsOnOutput.message(),
        "attributes on the `type Output = ...` or declaration are not supported"
    );
    assert_eq!(
        MacroError::VisibilityOnOutput.message(),
        "`pub` or `crate` visibility modifiers on the `type Output = ...` declaration are not supported"
    );
    assert_eq!(
        MacroError::DefaultOnOutput.message(),
        "`default` specifier on the `type Output = ...` declaration is not supported"
    );
    assert_eq!(
        MacroError::GenericsOnOutput.message(),
        "generics on the `type Output = ...` declaration are not supported"
    );
    assert_eq!(
        MacroError::NotNamedOutput.message(),
        "implementation must contain an associated type definition named `Output`"
    );
}

#[test]
fn implementing_type_must_be_one_identifier() {
    let shapes = vec![
        SelfTypeModel::Other,
        SelfTypeModel::Path {
            has_qself: true,
            leading_colon: false,
            segments: vec![PathSegmentModel { ident: "F".to_string(), has_arguments: false }],
        },
        SelfTypeModel::Path {
            has_qself: false,
            leading_colon: true,
            segments: vec![PathSegmentModel { ident: "F".to_string(), has_arguments: false }],
        },
        SelfTypeModel::Path {
            has_qself: false,
            leading_colon: false,
            segments: vec![
                PathSegmentModel { ident: "a".to_string(), has_arguments: false },
                PathSegmentModel { ident: "F".to_string(), has_arguments: false },
            ],
        },
        SelfTypeModel::Path {
            has_qself: false,
            leading_colon: false,
            segments: vec![PathSegmentModel { ident: "F".to_string(), has_arguments: true }],
        },
    ];
    for shape in shapes {
        let mut item = future_item("F");
        item.self_ty = shape;
        assert_eq!(refusal(&vec![], Some(item)), MacroError::NotSingleType);
    }
    assert_eq!(
        MacroError::NotSingleType.message(),
        "expected `impl` declaration to implement a single type"
    );
}

#[test]
fn check_impl_gives_future_name() {
    match check_impl(&future_item("BoxFutureI32")) {
        Ok(name) => assert_eq!(name, "BoxFutureI32"),
        Err(_) => panic!("accepted"),
    }
}
