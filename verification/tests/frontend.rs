use github_webhook_type_generator::ast::{
    element_eq, type_eq, Decl, TsIndexSignature, TsInterfaceDecl, TsKeywordKind, TsPropertySignature,
    TsType, TsTypeAliasDecl, TsTypeElement,
};
use github_webhook_type_generator::frontend::merge_union_type_lits::merge_union_type_lits;
use github_webhook_type_generator::frontend::name_types::string_literal_union;
use github_webhook_type_generator::frontend::syntax::{
    NonNullPropertyType, PropertyType, PropertyTypeConversion, PropertyTypeConversionError, TagKind,
};
use github_webhook_type_generator::frontend::{
    convert_module, interface2struct, ts_type_to_rs, tunion2enum, FrontendError, FrontendState,
    TypeConvertContext,
};
use github_webhook_type_generator::ir::{
    LiteralKeyMap, RustAlias, RustComment, RustContainerAttrs, RustEnum, RustEnumMember,
    RustEnumMemberKind, RustFieldAttr, RustFieldAttrs, RustMemberType, RustSegment, RustStruct,
    RustStructAttr, RustStructMember, RustType, RustVariantAttr, SerdeContainerAttr, SerdeFieldAttr,
    SerdeVariantAttr, TypeName,
};
use github_webhook_type_generator::strmap::StringMap;

fn kw(k: TsKeywordKind) -> TsType {
    TsType::Keyword(k)
}

fn string() -> TsType {
    kw(TsKeywordKind::String)
}

fn number() -> TsType {
    kw(TsKeywordKind::Number)
}

fn lit(v: &str) -> TsType {
    TsType::LitStr(v.to_owned())
}

fn tref(n: &str) -> TsType {
    TsType::TypeRef(n.to_owned())
}

fn prop(key: &str, ty: TsType) -> TsTypeElement {
    TsTypeElement::Property(TsPropertySignature {
        key: key.to_owned(),
        optional: false,
        type_ann: ty,
        comment: None,
    })
}

fn opt_prop(key: &str, ty: TsType) -> TsTypeElement {
    TsTypeElement::Property(TsPropertySignature {
        key: key.to_owned(),
        optional: true,
        type_ann: ty,
        comment: None,
    })
}

fn interface(name: &str, body: Vec<TsTypeElement>) -> Decl {
    Decl::Interface(TsInterfaceDecl { name: name.to_owned(), body, comment: None })
}

fn type_alias(name: &str, ty: TsType) -> Decl {
    Decl::TypeAlias(TsTypeAliasDecl { name: name.to_owned(), type_ann: ty, comment: None })
}

fn custom(name: &str) -> RustType {
    RustType::Custom(TypeName::new(name.to_owned()))
}

fn text() -> RustType {
    RustType::String { is_borrowed: false }
}

fn field(name: &str, ty: RustType) -> RustStructMember {
    RustStructMember {
        attr: RustFieldAttrs::new(),
        name: name.to_owned(),
        ty: RustMemberType { ty, is_optional: false },
        comment: None,
    }
}

fn opt_field(name: &str, ty: RustType) -> RustStructMember {
    RustStructMember {
        attr: RustFieldAttrs::new(),
        name: name.to_owned(),
        ty: RustMemberType { ty, is_optional: true },
        comment: None,
    }
}

fn flatten_field(name: &str, ty: RustType) -> RustStructMember {
    RustStructMember {
        attr: RustFieldAttrs::from_attr(RustFieldAttr::Serde(SerdeFieldAttr::Flatten)),
        name: name.to_owned(),
        ty: RustMemberType { ty, is_optional: false },
        comment: None,
    }
}

fn record(name: &str, members: Vec<RustStructMember>) -> RustSegment {
    RustSegment::Struct(RustStruct::from_members(name.to_owned(), None, members))
}

fn alias(name: &str, ty: RustType) -> RustSegment {
    RustSegment::Alias(RustAlias { name: name.to_owned(), is_borrowed: false, comment: None, ty })
}

fn unary(ty: RustType) -> RustEnumMember {
    RustEnumMember::from_kind(RustEnumMemberKind::Unary(ty))
}

fn untagged(name: &str, members: Vec<RustEnumMember>) -> RustSegment {
    RustSegment::Enum(RustEnum {
        attr: RustContainerAttrs::from_attr(RustStructAttr::Serde(SerdeContainerAttr::Untagged)),
        name: name.to_owned(),
        comment: None,
        is_borrowed: false,
        member: members,
    })
}

fn literal(ident: &str, wire: &str) -> RustEnumMember {
    let mut m = RustEnumMember::from_kind(RustEnumMemberKind::Nullary(ident.to_owned()));
    if ident != wire {
        m.attr.add_attr(RustVariantAttr::Serde(SerdeVariantAttr::Rename(wire.to_owned())));
    }
    m
}

fn literal_enum(name: &str, members: Vec<RustEnumMember>) -> RustSegment {
    RustSegment::Enum(RustEnum::from_members(name.to_owned(), None, members))
}

fn segments_of(decls: Vec<Decl>) -> Vec<RustSegment> {
    convert_module(&decls).unwrap().0
}

fn error_of(decls: Vec<Decl>) -> FrontendError {
    convert_module(&decls).unwrap_err()
}

#[test]
fn an_interface_becomes_a_record() {
    let decls = vec![interface(
        "Foo",
        vec![
            prop("id", number()),
            prop("type", string()),
            opt_prop("flag", kw(TsKeywordKind::Boolean)),
            prop("name", TsType::Union(vec![string(), kw(TsKeywordKind::Null)])),
            prop("kind", lit("a")),
            prop("nothing", kw(TsKeywordKind::Null)),
            prop("any", kw(TsKeywordKind::Unknown)),
            prop("other", tref("Bar")),
            prop("list", TsType::Array(Box::new(TsType::Parenthesized(Box::new(tref("Bar")))))),
        ],
    )];
    let (segments, lkm) = convert_module(&decls).unwrap();
    let mut renamed = field("type_", text());
    renamed.attr.add_attr(RustFieldAttr::Serde(SerdeFieldAttr::Rename("type".to_owned())));
    assert_eq!(
        segments,
        vec![record(
            "Foo",
            vec![
                field("id", RustType::Number),
                renamed,
                opt_field("flag", RustType::Boolean),
                opt_field("name", text()),
                field("kind", RustType::UnknownLiteral),
                field("nothing", RustType::Unit),
                field("any", RustType::Unknown),
                field("other", custom("Bar")),
                field("list", RustType::Array(Box::new(custom("Bar")))),
            ],
        )]
    );
    assert_eq!(lkm.len(), 1);
    assert_eq!(lkm.get("Foo").unwrap().get("kind"), Some(&"a".to_owned()));
    assert_eq!(lkm.get("Foo").unwrap().len(), 1);
}

#[test]
fn reserved_keys_get_another_identifier() {
    let decls = vec![interface(
        "Foo",
        vec![
            prop("ref", number()),
            prop("self", number()),
            prop("+1", number()),
            prop("-1", lit("x")),
            prop("types", number()),
        ],
    )];
    let (segments, lkm) = convert_module(&decls).unwrap();
    let renamed = |name: &str, wire: &str, ty: RustType| {
        let mut m = field(name, ty);
        m.attr.add_attr(RustFieldAttr::Serde(SerdeFieldAttr::Rename(wire.to_owned())));
        m
    };
    assert_eq!(
        segments,
        vec![record(
            "Foo",
            vec![
                renamed("ref_", "ref", RustType::Number),
                renamed("self_", "self", RustType::Number),
                renamed("plus_1", "+1", RustType::Number),
                renamed("minus_1", "-1", RustType::UnknownLiteral),
                field("types", RustType::Number),
            ],
        )]
    );
    assert_eq!(lkm.get("Foo").unwrap().get("minus_1"), Some(&"x".to_owned()));
}

#[test]
fn comments_become_prose() {
    let decls = vec![Decl::Interface(TsInterfaceDecl {
        name: "Foo".to_owned(),
        body: vec![TsTypeElement::Property(TsPropertySignature {
            key: "id".to_owned(),
            optional: false,
            type_ann: number(),
            comment: Some("*\n   * The id\n   * of the foo.\n   ".to_owned()),
        })],
        comment: Some("* A foo. ".to_owned()),
    })];
    let mut member = field("id", RustType::Number);
    member.comment = Some(RustComment("The id of the foo.".to_owned()));
    assert_eq!(
        segments_of(decls),
        vec![RustSegment::Struct(RustStruct::from_members(
            "Foo".to_owned(),
            Some(RustComment("A foo.".to_owned())),
            vec![member],
        ))]
    );
}

#[test]
fn literal_union_de_duplication() {
    let decls = vec![
        interface("A", vec![prop("state", TsType::Union(vec![lit("open"), lit("in_progress"), lit("closed")]))]),
        interface(
            "B",
            vec![prop(
                "status",
                TsType::Union(vec![lit("closed"), lit("open"), kw(TsKeywordKind::Null), lit("in_progress")]),
            )],
        ),
        type_alias("C", TsType::Union(vec![lit("in_progress"), lit("closed"), lit("open")])),
    ];
    assert_eq!(
        segments_of(decls),
        vec![
            literal_enum(
                "AState",
                vec![
                    literal("Closed", "closed"),
                    literal("InProgress", "in_progress"),
                    literal("Open", "open"),
                ],
            ),
            record("A", vec![field("state", custom("AState"))]),
            alias("BStatus", custom("AState")),
            record("B", vec![opt_field("status", custom("BStatus"))]),
            alias("C", custom("AState")),
        ]
    );
}

#[test]
fn different_literal_sets_get_sum_types_of_their_own() {
    let decls = vec![
        type_alias("A", TsType::Union(vec![lit("Bot"), lit("User")])),
        type_alias("B", TsType::Union(vec![lit("Bot"), lit("User"), lit("Organization")])),
        type_alias("D", TsType::Union(vec![lit("User"), lit("User")])),
    ];
    assert_eq!(
        segments_of(decls),
        vec![
            literal_enum("A", vec![literal("Bot", "Bot"), literal("User", "User")]),
            literal_enum(
                "B",
                vec![literal("Bot", "Bot"), literal("Organization", "Organization"), literal("User", "User")],
            ),
            literal_enum("D", vec![literal("User", "User"), literal("User", "User")]),
        ]
    );
}

fn sample_module() -> Vec<Decl> {
    vec![
        interface(
            "Foo",
            vec![
                prop(
                    "bar",
                    TsType::TypeLit(vec![
                        prop("baz", string()),
                        prop("qux", TsType::TypeLit(vec![prop("x", number())])),
                        prop("again", TsType::Array(Box::new(TsType::TypeLit(vec![prop("y", number())])))),
                    ]),
                ),
                prop("v", TsType::Union(vec![number(), TsType::Array(Box::new(string()))])),
                prop("state", TsType::Union(vec![lit("a"), lit("b")])),
            ],
        ),
        type_alias("Ev", TsType::Union(vec![tref("A"), tref("B")])),
    ]
}

#[test]
fn naming_determinism() {
    let first = convert_module(&sample_module()).unwrap();
    let second = convert_module(&sample_module()).unwrap();
    assert_eq!(first.0, second.0);
    let names: Vec<&str> = first.0.iter().map(|s| s.name()).collect();
    assert_eq!(
        names,
        vec!["FooBarQux", "FooBarAgain", "FooBar", "FooVUnion", "FooState", "Foo", "Ev"]
    );
}

#[test]
fn anonymous_object_types_are_named_by_their_path() {
    let decls = vec![interface(
        "pull_request",
        vec![prop(
            "head_ref",
            TsType::TypeLit(vec![prop("inner", TsType::TypeLit(vec![prop("x", number())]))]),
        )],
    )];
    assert_eq!(
        segments_of(decls),
        vec![
            record("PullRequestHeadRefInner", vec![field("x", RustType::Number)]),
            record("PullRequestHeadRef", vec![field("inner", custom("PullRequestHeadRefInner"))]),
            record("pull_request", vec![field("head_ref", custom("PullRequestHeadRef"))]),
        ]
    );
}

#[test]
fn a_second_anonymous_type_at_one_path_gets_a_number() {
    let decls = vec![interface(
        "Foo",
        vec![prop(
            "v",
            TsType::Union(vec![
                TsType::TypeLit(vec![prop("a", number())]),
                number(),
                TsType::TypeLit(vec![prop("b", number())]),
            ]),
        )],
    )];
    assert_eq!(
        segments_of(decls),
        vec![
            record("FooV1", vec![field("a", RustType::Number)]),
            record("FooV2", vec![field("b", RustType::Number)]),
            untagged(
                "FooVUnion",
                vec![unary(custom("FooV1")), unary(RustType::Number), unary(custom("FooV2"))],
            ),
            record("Foo", vec![field("v", custom("FooVUnion"))]),
        ]
    );
}

#[test]
fn a_union_alias_becomes_an_untagged_sum_type_of_its_name() {
    let decls = vec![type_alias(
        "Ev",
        TsType::Union(vec![tref("A"), kw(TsKeywordKind::Null), TsType::Array(Box::new(tref("B")))]),
    )];
    assert_eq!(
        segments_of(decls),
        vec![untagged("Ev", vec![unary(custom("A")), unary(RustType::Array(Box::new(custom("B"))))])]
    );
}

#[test]
fn a_union_of_one_alternative_and_null_is_that_alternative() {
    let decls = vec![
        interface("Foo", vec![prop("v", TsType::Union(vec![kw(TsKeywordKind::Null), tref("Bar")]))]),
        type_alias("X", TsType::Union(vec![string(), kw(TsKeywordKind::Null)])),
    ];
    assert_eq!(segments_of(decls), vec![record("Foo", vec![opt_field("v", custom("Bar"))])]);
}

#[test]
fn a_union_of_object_types_is_split_into_common_and_distinct_members() {
    let decls = vec![interface(
        "Foo",
        vec![prop(
            "v",
            TsType::Union(vec![
                TsType::TypeLit(vec![prop("a", number()), prop("b", string())]),
                TsType::TypeLit(vec![prop("a", number()), prop("c", kw(TsKeywordKind::Boolean))]),
            ]),
        )],
    )];
    assert_eq!(
        segments_of(decls),
        vec![
            record("FooV1", vec![field("b", text())]),
            record("FooV2", vec![field("c", RustType::Boolean)]),
            untagged("FooVDistinctUnion", vec![unary(custom("FooV1")), unary(custom("FooV2"))]),
            record(
                "FooV",
                vec![field("a", RustType::Number), flatten_field("distinct", custom("FooVDistinctUnion"))],
            ),
            record("Foo", vec![field("v", custom("FooV"))]),
        ]
    );
}

#[test]
fn merge_keeps_what_all_alternatives_share() {
    let a = vec![prop("x", number()), prop("y", string()), prop("z", number())];
    let b = vec![prop("z", number()), prop("x", number()), prop("w", string())];
    let c = vec![prop("x", number()), opt_prop("z", number())];
    let variants = vec![&a, &b, &c];
    let merged = merge_union_type_lits(&variants);
    assert_eq!(merged.intersection, vec![&a[0]]);
    assert_eq!(
        merged.diffs,
        vec![vec![&a[1], &a[2]], vec![&b[2], &a[2]], vec![&c[1]]]
    );
}

#[test]
fn merge_of_one_alternative_is_that_alternative() {
    let a = vec![prop("x", number()), prop("y", string())];
    let variants = vec![&a];
    let merged = merge_union_type_lits(&variants);
    assert_eq!(merged.intersection, vec![&a[0], &a[1]]);
    assert_eq!(merged.diffs, vec![Vec::<&TsTypeElement>::new()]);
}

#[test]
fn merge_matches_each_member_once() {
    let a = vec![prop("x", number()), prop("x", number())];
    let b = vec![prop("x", number())];
    let variants = vec![&a, &b];
    let merged = merge_union_type_lits(&variants);
    assert_eq!(merged.intersection, vec![&a[0]]);
    assert_eq!(merged.diffs, vec![vec![&a[1]], vec![]]);
}

#[test]
fn structural_equality_ignores_comments_only() {
    let with_comment = TsTypeElement::Property(TsPropertySignature {
        key: "x".to_owned(),
        optional: false,
        type_ann: TsType::Union(vec![number(), TsType::TypeLit(vec![prop("a", lit("v"))])]),
        comment: Some("* x ".to_owned()),
    });
    let without = prop("x", TsType::Union(vec![number(), TsType::TypeLit(vec![prop("a", lit("v"))])]));
    assert!(element_eq(&with_comment, &without));
    assert!(!element_eq(&without, &opt_prop("x", number())));
    assert!(!element_eq(&prop("x", number()), &prop("y", number())));
    assert!(!element_eq(&prop("x", number()), &prop("x", string())));
    assert!(!element_eq(&prop("x", number()), &TsTypeElement::Other));
    assert!(element_eq(&TsTypeElement::Other, &TsTypeElement::Other));
    let index = |n: &str| {
        TsTypeElement::Index(TsIndexSignature {
            param_name: n.to_owned(),
            param_type: string(),
            type_ann: number(),
        })
    };
    assert!(element_eq(&index("k"), &index("k")));
    assert!(!element_eq(&index("k"), &index("j")));
    assert!(type_eq(&TsType::Tuple(vec![]), &TsType::Tuple(vec![])));
    assert!(!type_eq(&TsType::Tuple(vec![]), &TsType::Tuple(vec![number()])));
    assert!(!type_eq(&TsType::Union(vec![number()]), &TsType::Intersection(vec![number()])));
    assert!(!type_eq(&lit("a"), &lit("b")));
    assert!(!type_eq(&tref("a"), &lit("a")));
    assert!(type_eq(
        &TsType::Parenthesized(Box::new(TsType::Array(Box::new(TsType::LitOther)))),
        &TsType::Parenthesized(Box::new(TsType::Array(Box::new(TsType::LitOther))))
    ));
    assert!(!type_eq(&TsType::TypeOperator, &TsType::Other));
}

#[test]
fn an_intersection_with_an_object_type_flattens_the_named_type() {
    let decls = vec![
        type_alias(
            "X",
            TsType::Intersection(vec![tref("PullRequest"), TsType::TypeLit(vec![prop("extra", number())])]),
        ),
        interface(
            "Foo",
            vec![prop(
                "v",
                TsType::Intersection(vec![tref("Base"), TsType::TypeLit(vec![prop("n", number())])]),
            )],
        ),
    ];
    assert_eq!(
        segments_of(decls),
        vec![
            record(
                "X",
                vec![field("extra", RustType::Number), flatten_field("pull_request", custom("PullRequest"))],
            ),
            record("FooV", vec![field("n", RustType::Number), flatten_field("base", custom("Base"))]),
            record("Foo", vec![field("v", custom("FooV"))]),
        ]
    );
}

#[test]
fn an_intersection_whose_object_type_adds_nothing_is_an_alias() {
    let decls = vec![
        type_alias("Y", TsType::Intersection(vec![tref("Base"), TsType::TypeLit(vec![prop("kind", lit("a"))])])),
        type_alias("Z", TsType::Intersection(vec![tref("Base"), TsType::TypeLit(vec![])])),
    ];
    let (segments, lkm) = convert_module(&decls).unwrap();
    assert_eq!(segments, vec![alias("Y", custom("Base")), alias("Z", custom("Base"))]);
    assert_eq!(lkm.get("Y").unwrap().get("kind"), Some(&"a".to_owned()));
}

#[test]
fn any_other_intersection_is_a_placeholder() {
    let decls = vec![interface(
        "Foo",
        vec![
            prop("a", TsType::Intersection(vec![tref("A"), tref("B")])),
            prop("b", TsType::Intersection(vec![TsType::TypeLit(vec![]), tref("B")])),
            prop("c", TsType::Intersection(vec![tref("A"), TsType::TypeLit(vec![]), tref("B")])),
        ],
    )];
    assert_eq!(
        segments_of(decls),
        vec![record(
            "Foo",
            vec![
                field("a", RustType::UnknownIntersection),
                field("b", RustType::UnknownIntersection),
                field("c", RustType::UnknownIntersection),
            ],
        )]
    );
}

#[test]
fn an_index_signature_becomes_a_flattened_map() {
    let decls = vec![interface(
        "Foo",
        vec![prop(
            "labels",
            TsType::TypeLit(vec![
                prop("n", number()),
                TsTypeElement::Other,
                TsTypeElement::Index(TsIndexSignature {
                    param_name: "key".to_owned(),
                    param_type: string(),
                    type_ann: TsType::Array(Box::new(number())),
                }),
            ]),
        )],
    )];
    assert_eq!(
        segments_of(decls),
        vec![
            record(
                "FooLabels",
                vec![
                    field("n", RustType::Number),
                    flatten_field(
                        "key",
                        RustType::Dict(Box::new(text()), Box::new(RustType::Array(Box::new(RustType::Number)))),
                    ),
                ],
            ),
            record("Foo", vec![field("labels", custom("FooLabels"))]),
        ]
    );
}

#[test]
fn unsupported_types_degrade_to_placeholders() {
    let decls = vec![interface(
        "Foo",
        vec![
            prop("a", TsType::Tuple(vec![])),
            prop("b", TsType::Tuple(vec![number()])),
            prop("c", TsType::Other),
            prop("d", TsType::TypeOperator),
            prop("e", TsType::LitOther),
        ],
    )];
    assert_eq!(
        segments_of(decls),
        vec![record(
            "Foo",
            vec![
                field("a", RustType::Unit),
                field("b", RustType::Unknown),
                field("c", RustType::Unknown),
                field("d", RustType::Unknown),
                field("e", RustType::UnknownLiteral),
            ],
        )]
    );
}

#[test]
fn aliases_of_names_keywords_and_arrays() {
    let decls = vec![
        type_alias("A", tref("B")),
        type_alias("N", number()),
        type_alias("L", TsType::Array(Box::new(tref("B")))),
        type_alias("K", TsType::TypeOperator),
        type_alias("WebhookEvents", TsType::Other),
    ];
    assert_eq!(
        segments_of(decls),
        vec![
            alias("A", custom("B")),
            alias("N", RustType::Number),
            alias("L", RustType::Array(Box::new(custom("B")))),
            alias("WebhookEvents", RustType::Array(Box::new(text()))),
        ]
    );
}

#[test]
fn each_error_has_its_input() {
    assert_eq!(
        error_of(vec![type_alias("X", TsType::Array(Box::new(TsType::TypeLit(vec![]))))]),
        FrontendError::MissingContext
    );
    assert_eq!(
        error_of(vec![interface(
            "Foo",
            vec![prop("v", TsType::Union(vec![kw(TsKeywordKind::Null), kw(TsKeywordKind::Null)]))]
        )]),
        FrontendError::EmptyUnion
    );
    assert_eq!(
        error_of(vec![interface("Foo", vec![prop("v", kw(TsKeywordKind::Other))])]),
        FrontendError::UnsupportedKeyword
    );
    assert_eq!(
        error_of(vec![interface("Foo", vec![prop("a", number()), TsTypeElement::Other])]),
        FrontendError::UnsupportedMember
    );
    assert_eq!(
        error_of(vec![type_alias("X", TsType::TypeLit(vec![]))]),
        FrontendError::UnsupportedAlias
    );
    assert_eq!(
        error_of(vec![type_alias("X", TsType::Parenthesized(Box::new(tref("A"))))]),
        FrontendError::UnsupportedAlias
    );
    assert_eq!(error_of(vec![interface("Ok", vec![]), Decl::Other]), FrontendError::UnsupportedDeclaration);
}

#[test]
fn the_first_error_in_order_is_reported() {
    assert_eq!(
        error_of(vec![interface(
            "Foo",
            vec![prop("a", kw(TsKeywordKind::Other)), TsTypeElement::Other]
        )]),
        FrontendError::UnsupportedKeyword
    );
    assert_eq!(
        error_of(vec![
            interface("Foo", vec![prop("v", TsType::Union(vec![tref("A"), kw(TsKeywordKind::Other)]))]),
            Decl::Other
        ]),
        FrontendError::UnsupportedKeyword
    );
}

#[test]
fn context_names_count_up() {
    let mut ctx = TypeConvertContext::from_path(vec!["issue_comment".to_owned(), "USER".to_owned()]);
    assert_eq!(ctx.to_pascal(), vec!["IssueComment", "User"]);
    assert_eq!(ctx.create_ident(), "IssueCommentUser");
    assert_eq!(ctx.create_ident(), "IssueCommentUser1");
    assert_eq!(ctx.create_ident_with(Some(vec!["DistinctUnion".to_owned()])), "IssueCommentUserDistinctUnion");
    assert_eq!(ctx.create_ident(), "IssueCommentUser2");
    ctx.projection("head".to_owned());
    assert_eq!(ctx.create_ident(), "IssueCommentUserHead");
    assert_eq!(ctx.create_ident(), "IssueCommentUserHead1");
}

#[test]
fn a_granted_name_is_used_once() {
    let mut ctx = TypeConvertContext {
        path: vec!["Ev".to_owned()],
        granted_name: Some("Ev".to_owned()),
        from_alias: true,
        duplicate_counter: 0,
    };
    assert_eq!(ctx.create_ident_with(Some(vec!["X".to_owned()])), "Ev");
    assert_eq!(ctx.create_ident(), "Ev1");
    assert_eq!(ctx.create_ident(), "Ev2");
    assert_eq!(ctx.create_ident_with(Some(vec!["X".to_owned()])), "EvX");
    let copy = ctx.clone();
    assert_eq!(copy, ctx);
}

#[test]
fn the_counter_stops_at_the_largest_value() {
    let mut ctx = TypeConvertContext {
        path: vec!["a".to_owned()],
        granted_name: None,
        from_alias: true,
        duplicate_counter: usize::MAX,
    };
    let expected = format!("A{}", usize::MAX as u128 + 1);
    assert_eq!(ctx.create_ident(), expected);
    assert_eq!(ctx.duplicate_counter, usize::MAX);
}

#[test]
fn string_literal_union_caches_by_the_sorted_set() {
    let mut st = FrontendState::new();
    let mut ctx = TypeConvertContext::from_path(vec!["A".to_owned()]);
    let first = string_literal_union(&mut st, vec!["a".to_owned(), "b".to_owned()], None, &mut ctx);
    let second = string_literal_union(&mut st, vec!["a".to_owned(), "b".to_owned()], None, &mut ctx);
    let third = string_literal_union(&mut st, vec!["a".to_owned()], None, &mut ctx);
    assert_eq!(first, TypeName::new("A".to_owned()));
    assert_eq!(second, TypeName::new("A1".to_owned()));
    assert_eq!(third, TypeName::new("A2".to_owned()));
    assert_eq!(
        st.segments,
        vec![
            literal_enum("A", vec![literal("A", "a"), literal("B", "b")]),
            alias("A1", custom("A")),
            literal_enum("A2", vec![literal("A", "a")]),
        ]
    );
    assert_eq!(
        st.name_types.literal_map,
        vec![
            (vec!["a".to_owned(), "b".to_owned()], "A".to_owned()),
            (vec!["a".to_owned()], "A2".to_owned()),
        ]
    );
}

#[test]
fn conversion_functions_compose() {
    let mut st = FrontendState::new();
    let mut lkm: LiteralKeyMap = StringMap::new();
    let decl = TsInterfaceDecl { name: "Foo".to_owned(), body: vec![prop("id", number())], comment: None };
    assert_eq!(interface2struct(&mut st, &decl, None, &mut lkm), Ok(()));
    let union = TsType::Union(vec![tref("A"), tref("B")]);
    assert_eq!(tunion2enum(&mut st, "AorB", &union, None, &mut lkm, false), Ok(()));
    let mut ctx = Some(TypeConvertContext::from_path(vec!["Foo".to_owned(), "x".to_owned()]));
    let ty = TsType::TypeLit(vec![prop("y", number())]);
    assert_eq!(
        ts_type_to_rs(&mut st, &mut ctx, &ty, Some(RustComment("c".to_owned())), &mut lkm),
        Ok((false, custom("FooX")))
    );
    assert_eq!(ctx.unwrap().duplicate_counter, 1);
    let mut named = RustStruct::from_members("FooX".to_owned(), None, vec![field("y", RustType::Number)]);
    named.comment = Some(RustComment("c".to_owned()));
    assert_eq!(
        st.segments,
        vec![
            record("Foo", vec![field("id", RustType::Number)]),
            untagged("AorBUnion", vec![unary(custom("A")), unary(custom("B"))]),
            RustSegment::Struct(named),
        ]
    );
}

#[test]
fn schema_words_are_told_apart() {
    assert_eq!(NonNullPropertyType::try_from_str("null"), Ok(PropertyTypeConversion::Null));
    assert_eq!(
        NonNullPropertyType::try_from_str("integer"),
        Ok(PropertyTypeConversion::NonNull(NonNullPropertyType::Integer))
    );
    assert_eq!(
        NonNullPropertyType::try_from_str("string"),
        Ok(PropertyTypeConversion::NonNull(NonNullPropertyType::String))
    );
    assert_eq!(
        NonNullPropertyType::try_from_str("String"),
        Err(PropertyTypeConversionError::UnsupportedType)
    );
    assert_eq!(TagKind::Ref.as_str(), "$ref");
    assert_eq!(TagKind::OneOf.as_str(), "oneOf");
    assert_eq!(TagKind::AllOf.as_str(), "allOf");
    assert_eq!(TagKind::Type.as_str(), "type");
    assert_eq!(TagKind::Enum.as_str(), "enum");
    assert_eq!(NonNullPropertyType::Integer.ts_type_str(), "number");
    assert_eq!(NonNullPropertyType::Array.ts_type_str(), "array");
    assert_eq!(PropertyType::from_conversion(PropertyTypeConversion::Null), PropertyType::Null);
    assert_eq!(
        PropertyType::from_conversion(PropertyTypeConversion::NonNull(NonNullPropertyType::Object)),
        PropertyType::NonNull(NonNullPropertyType::Object)
    );
}
