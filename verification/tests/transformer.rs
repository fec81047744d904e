use github_webhook_type_generator::ir::{
    type_deps, LiteralKeyMap, RenameRule, RustAlias, RustContainerAttrs, RustEnum, RustEnumMember,
    RustEnumMemberKind, RustFieldAttr, RustFieldAttrs, RustMemberType, RustSegment, RustStruct,
    RustStructAttr, RustStructMember, RustType, RustVariantAttr, RustVariantAttrs,
    SerdeContainerAttr, SerdeFieldAttr, SerdeVariantAttr, TypeName,
};
use github_webhook_type_generator::strmap::StringMap;
use github_webhook_type_generator::transformer::flatten_type::can_flatten;
use github_webhook_type_generator::transformer::{
    adapt_borrow, adapt_internal_tag, adapt_rename_all, flatten_type, retype,
};

fn custom(name: &str) -> RustType {
    RustType::Custom(TypeName::new(name.to_owned()))
}

fn borrowed(name: &str) -> RustType {
    RustType::Custom(TypeName { name: name.to_owned(), is_borrowed: true })
}

fn text() -> RustType {
    RustType::String { is_borrowed: false }
}

fn field(name: &str, ty: RustType) -> RustStructMember {
    RustStructMember {
        attr: RustFieldAttrs::new(),
        name: name.to_owned(),
        ty: RustMemberType { ty, is_optional: false },
        comment: None,
    }
}

fn flatten_field(name: &str, ty: RustType, is_optional: bool) -> RustStructMember {
    RustStructMember {
        attr: RustFieldAttrs::from_attr(RustFieldAttr::Serde(SerdeFieldAttr::Flatten)),
        name: name.to_owned(),
        ty: RustMemberType { ty, is_optional },
        comment: None,
    }
}

fn record(name: &str, members: Vec<RustStructMember>) -> RustSegment {
    RustSegment::Struct(RustStruct::from_members(name.to_owned(), None, members))
}

fn alias(name: &str, ty: RustType) -> RustSegment {
    RustSegment::Alias(RustAlias { name: name.to_owned(), is_borrowed: false, comment: None, ty })
}

fn unary(name: &str) -> RustEnumMember {
    RustEnumMember::from_kind(RustEnumMemberKind::Unary(custom(name)))
}

fn nullary(name: &str) -> RustEnumMember {
    RustEnumMember::from_kind(RustEnumMemberKind::Nullary(name.to_owned()))
}

fn untagged(name: &str, members: Vec<RustEnumMember>) -> RustSegment {
    RustSegment::Enum(RustEnum {
        attr: RustContainerAttrs::from_attr(RustStructAttr::Serde(SerdeContainerAttr::Untagged)),
        name: name.to_owned(),
        comment: None,
        is_borrowed: false,
        member: members,
    })
}

fn plain_enum(name: &str, members: Vec<RustEnumMember>) -> RustSegment {
    RustSegment::Enum(RustEnum::from_members(name.to_owned(), None, members))
}

fn literals(entries: &[(&str, &[(&str, &str)])]) -> LiteralKeyMap {
    let mut lkm: LiteralKeyMap = StringMap::new();
    for (ty, fields) in entries {
        let mut inner: StringMap<String> = StringMap::new();
        for (k, v) in fields.iter() {
            inner.insert(k.to_string(), v.to_string());
        }
        lkm.insert(ty.to_string(), inner);
    }
    lkm
}

fn renamed(mut m: RustEnumMember, wire: &str) -> RustEnumMember {
    m.attr.add_attr(RustVariantAttr::Serde(SerdeVariantAttr::Rename(wire.to_owned())));
    m
}

fn named(variant: &str, ty: &str) -> RustEnumMember {
    RustEnumMember::from_kind(RustEnumMemberKind::UnaryNamed {
        variant_name: variant.to_owned(),
        ty: custom(ty),
    })
}

fn tagged(name: &str, attrs: Vec<SerdeContainerAttr>, members: Vec<RustEnumMember>) -> RustSegment {
    let mut attr = RustContainerAttrs::new();
    for a in attrs {
        attr.add_attr(RustStructAttr::Serde(a));
    }
    RustSegment::Enum(RustEnum {
        attr,
        name: name.to_owned(),
        comment: None,
        is_borrowed: false,
        member: members,
    })
}

#[test]
fn tag_inference_positive_case() {
    let lkm = literals(&[
        ("EvA", &[("kind", "a")]),
        ("EvB", &[("kind", "b"), ("only_b", "x")]),
        ("EvC", &[("kind", "c")]),
    ]);
    let mut seg = untagged("Ev", vec![unary("EvA"), unary("EvB"), unary("EvC")]);
    assert_eq!(adapt_internal_tag(&mut seg, &lkm), Some(()));
    let variants = || {
        vec![
            renamed(named("A", "EvA"), "a"),
            renamed(named("B", "EvB"), "b"),
            renamed(named("C", "EvC"), "c"),
        ]
    };
    assert_eq!(seg, tagged("Ev", vec![SerdeContainerAttr::Tag("kind".to_owned())], variants()));
    assert_eq!(adapt_rename_all(&mut seg), Some(()));
    assert_eq!(
        seg,
        tagged(
            "Ev",
            vec![
                SerdeContainerAttr::Tag("kind".to_owned()),
                SerdeContainerAttr::RenameAll(RenameRule::ScreamingSnakeCase),
            ],
            variants(),
        )
    );
}

#[test]
fn tag_inference_names_variants_by_identifiers() {
    let lkm = literals(&[
        ("EvA", &[("action", "review_requested")]),
        ("EvB", &[("action", "Opened")]),
        ("EvC", &[("action", "check-run")]),
    ]);
    let mut seg = untagged("Ev", vec![unary("EvA"), unary("EvB"), unary("EvC")]);
    assert_eq!(adapt_internal_tag(&mut seg, &lkm), Some(()));
    assert_eq!(
        seg,
        tagged(
            "Ev",
            vec![SerdeContainerAttr::Tag("action".to_owned())],
            vec![
                renamed(named("ReviewRequested", "EvA"), "review_requested"),
                named("Opened", "EvB"),
                renamed(named("CheckRun", "EvC"), "check-run"),
            ],
        )
    );
}

#[test]
fn tag_inference_ambiguity() {
    let lkm = literals(&[
        ("EvA", &[("kind", "a"), ("action", "x")]),
        ("EvB", &[("action", "y"), ("kind", "b")]),
    ]);
    let mut seg = untagged("Ev", vec![unary("EvA"), unary("EvB")]);
    assert_eq!(adapt_internal_tag(&mut seg, &lkm), None);
    assert_eq!(seg, untagged("Ev", vec![unary("EvA"), unary("EvB")]));
}

#[test]
fn tag_inference_needs_a_common_field() {
    let lkm = literals(&[("EvA", &[("kind", "a")]), ("EvB", &[("action", "b")])]);
    let mut seg = untagged("Ev", vec![unary("EvA"), unary("EvB")]);
    assert_eq!(adapt_internal_tag(&mut seg, &lkm), None);
    assert_eq!(seg, untagged("Ev", vec![unary("EvA"), unary("EvB")]));
}

#[test]
fn tag_inference_needs_literals_on_every_variant() {
    let lkm = literals(&[("EvA", &[("kind", "a")])]);
    let mut seg = untagged("Ev", vec![unary("EvA"), unary("EvB")]);
    assert_eq!(adapt_internal_tag(&mut seg, &lkm), None);
    assert_eq!(seg, untagged("Ev", vec![unary("EvA"), unary("EvB")]));
}

#[test]
fn tag_inference_needs_distinct_values() {
    let lkm = literals(&[("EvA", &[("kind", "a")]), ("EvB", &[("kind", "a")])]);
    let mut seg = untagged("Ev", vec![unary("EvA"), unary("EvB")]);
    assert_eq!(adapt_internal_tag(&mut seg, &lkm), None);
    assert_eq!(seg, untagged("Ev", vec![unary("EvA"), unary("EvB")]));
}

#[test]
fn tag_inference_needs_unary_variants_of_named_types() {
    let lkm = literals(&[("EvA", &[("kind", "a")])]);
    let mut seg = untagged("Ev", vec![unary("EvA"), nullary("None")]);
    assert_eq!(adapt_internal_tag(&mut seg, &lkm), None);
    let mut seg = untagged("Ev", vec![named("A", "EvA")]);
    assert_eq!(adapt_internal_tag(&mut seg, &lkm), None);
    let mut seg = untagged(
        "Ev",
        vec![RustEnumMember::from_kind(RustEnumMemberKind::Unary(RustType::Number))],
    );
    assert_eq!(adapt_internal_tag(&mut seg, &lkm), None);
    let mut seg = untagged("Ev", vec![]);
    assert_eq!(adapt_internal_tag(&mut seg, &lkm), None);
    assert_eq!(seg, untagged("Ev", vec![]));
}

#[test]
fn tag_inference_tags_a_single_variant() {
    let lkm = literals(&[("EvA", &[("kind", "a")])]);
    let mut seg = untagged("Ev", vec![unary("EvA")]);
    assert_eq!(adapt_internal_tag(&mut seg, &lkm), Some(()));
    assert_eq!(
        seg,
        tagged(
            "Ev",
            vec![SerdeContainerAttr::Tag("kind".to_owned())],
            vec![renamed(named("A", "EvA"), "a")],
        )
    );
}

#[test]
fn tag_inference_leaves_other_segments_alone() {
    let lkm = literals(&[("EvA", &[("kind", "a")])]);
    let mut seg = record("EvA", vec![field("kind", RustType::UnknownLiteral)]);
    assert_eq!(adapt_internal_tag(&mut seg, &lkm), Some(()));
    assert_eq!(seg, record("EvA", vec![field("kind", RustType::UnknownLiteral)]));
}

#[test]
fn case_normalization() {
    let mut seg = plain_enum("Ev", vec![nullary("ISSUE_OPENED"), nullary("ISSUE_CLOSED")]);
    assert_eq!(adapt_rename_all(&mut seg), Some(()));
    assert_eq!(
        seg,
        tagged(
            "Ev",
            vec![SerdeContainerAttr::RenameAll(RenameRule::ScreamingSnakeCase)],
            vec![
                renamed(nullary("IssueOpened"), "ISSUE_OPENED"),
                renamed(nullary("IssueClosed"), "ISSUE_CLOSED"),
            ],
        )
    );
    let mut seg = plain_enum("Ev", vec![nullary("Created"), nullary("created_at")]);
    assert_eq!(adapt_rename_all(&mut seg), None);
    assert_eq!(seg, plain_enum("Ev", vec![nullary("Created"), nullary("created_at")]));
}

#[test]
fn case_normalization_widens_lower_to_snake() {
    let mut seg = plain_enum("Ev", vec![nullary("opened"), nullary("review_requested"), nullary("closed")]);
    assert_eq!(adapt_rename_all(&mut seg), Some(()));
    assert_eq!(
        seg,
        tagged(
            "Ev",
            vec![SerdeContainerAttr::RenameAll(RenameRule::SnakeCase)],
            vec![
                renamed(nullary("Opened"), "opened"),
                renamed(nullary("ReviewRequested"), "review_requested"),
                renamed(nullary("Closed"), "closed"),
            ],
        )
    );
}

#[test]
fn case_normalization_widens_upper_to_screaming_snake() {
    let mut seg = plain_enum("Ev", vec![nullary("MEMBER"), nullary("FIRST_TIMER"), nullary("NONE")]);
    assert_eq!(adapt_rename_all(&mut seg), Some(()));
    assert_eq!(
        seg,
        tagged(
            "Ev",
            vec![SerdeContainerAttr::RenameAll(RenameRule::ScreamingSnakeCase)],
            vec![
                renamed(nullary("Member"), "MEMBER"),
                renamed(nullary("FirstTimer"), "FIRST_TIMER"),
                renamed(nullary("None"), "NONE"),
            ],
        )
    );
}

#[test]
fn case_normalization_leaves_pascal_alone() {
    let mut seg = plain_enum("Ev", vec![nullary("Bot"), nullary("User")]);
    assert_eq!(adapt_rename_all(&mut seg), None);
    assert_eq!(seg, plain_enum("Ev", vec![nullary("Bot"), nullary("User")]));
    let mut seg = untagged("Ev", vec![unary("IssueOpened"), unary("IssueClosed")]);
    assert_eq!(adapt_rename_all(&mut seg), None);
    assert_eq!(seg, untagged("Ev", vec![unary("IssueOpened"), unary("IssueClosed")]));
}

#[test]
fn case_normalization_names_unary_variants() {
    let mut seg = plain_enum("Ev", vec![unary("issue_opened"), named("closed", "IssueClosed")]);
    assert_eq!(adapt_rename_all(&mut seg), Some(()));
    assert_eq!(
        seg,
        tagged(
            "Ev",
            vec![SerdeContainerAttr::RenameAll(RenameRule::SnakeCase)],
            vec![
                renamed(named("IssueOpened", "issue_opened"), "issue_opened"),
                renamed(named("Closed", "IssueClosed"), "closed"),
            ],
        )
    );
}

#[test]
fn case_normalization_keeps_a_rename_that_is_there() {
    let mut seg = plain_enum("Ev", vec![renamed(nullary("opened"), "wire"), nullary("closed")]);
    assert_eq!(adapt_rename_all(&mut seg), Some(()));
    assert_eq!(
        seg,
        tagged(
            "Ev",
            vec![SerdeContainerAttr::RenameAll(RenameRule::SnakeCase)],
            vec![renamed(nullary("Opened"), "wire"), renamed(nullary("Closed"), "closed")],
        )
    );
}

#[test]
fn case_normalization_renames_only_what_changes() {
    let mut seg = plain_enum("Ev", vec![nullary("_"), nullary("a_b")]);
    assert_eq!(adapt_rename_all(&mut seg), Some(()));
    assert_eq!(
        seg,
        tagged(
            "Ev",
            vec![SerdeContainerAttr::RenameAll(RenameRule::SnakeCase)],
            vec![renamed(nullary(""), "_"), renamed(nullary("AB"), "a_b")],
        )
    );
}

#[test]
fn case_normalization_skips_empty_and_foreign_segments() {
    let mut seg = plain_enum("Ev", vec![]);
    assert_eq!(adapt_rename_all(&mut seg), None);
    let mut seg = record("lower_name", vec![]);
    assert_eq!(adapt_rename_all(&mut seg), Some(()));
    assert_eq!(seg, record("lower_name", vec![]));
}

#[test]
fn case_normalization_refuses_lower_after_upper() {
    let mut seg = plain_enum("Ev", vec![nullary("OPEN"), nullary("closed")]);
    assert_eq!(adapt_rename_all(&mut seg), None);
    assert_eq!(seg, plain_enum("Ev", vec![nullary("OPEN"), nullary("closed")]));
}

#[test]
fn retype_replaces_names_inside_arrays_and_maps() {
    let mut map: StringMap<RustType> = StringMap::new();
    map.insert("Old".to_owned(), custom("New"));
    map.insert("Num".to_owned(), RustType::Number);
    let mut segments = vec![
        record(
            "A",
            vec![
                field("x", custom("Old")),
                field("y", RustType::Array(Box::new(custom("Old")))),
                field("z", RustType::Dict(Box::new(custom("Num")), Box::new(custom("Keep")))),
            ],
        ),
        untagged("E", vec![unary("Old"), named("V", "Num"), nullary("N")]),
        alias("T", RustType::Array(Box::new(RustType::Array(Box::new(custom("Num")))))),
    ];
    retype(&mut segments, map);
    assert_eq!(
        segments,
        vec![
            record(
                "A",
                vec![
                    field("x", custom("New")),
                    field("y", RustType::Array(Box::new(custom("New")))),
                    field("z", RustType::Dict(Box::new(RustType::Number), Box::new(custom("Keep")))),
                ],
            ),
            untagged(
                "E",
                vec![
                    unary("New"),
                    RustEnumMember::from_kind(RustEnumMemberKind::UnaryNamed {
                        variant_name: "V".to_owned(),
                        ty: RustType::Number,
                    }),
                    nullary("N"),
                ],
            ),
            alias("T", RustType::Array(Box::new(RustType::Array(Box::new(RustType::Number))))),
        ]
    );
}

#[test]
fn retype_does_not_look_at_what_it_put_in() {
    let mut map: StringMap<RustType> = StringMap::new();
    map.insert("A".to_owned(), custom("B"));
    map.insert("B".to_owned(), custom("C"));
    let mut segments = vec![alias("T", custom("A"))];
    retype(&mut segments, map);
    assert_eq!(segments, vec![alias("T", custom("B"))]);
}

#[test]
fn flattening() {
    let mut segments = vec![
        record("Wrapper", vec![flatten_field("repository", custom("Repository"), false)]),
        record("Repository", vec![field("id", RustType::Number)]),
        record(
            "Event",
            vec![field("repo", custom("Wrapper")), field("all", RustType::Array(Box::new(custom("Wrapper"))))],
        ),
        untagged("Either", vec![unary("Wrapper"), unary("Event")]),
        alias("Repo", custom("Wrapper")),
    ];
    assert!(can_flatten(&segments));
    flatten_type(&mut segments);
    assert_eq!(
        segments,
        vec![
            record("Repository", vec![field("id", RustType::Number)]),
            record(
                "Event",
                vec![
                    field("repo", custom("Repository")),
                    field("all", RustType::Array(Box::new(custom("Repository")))),
                ],
            ),
            untagged("Either", vec![unary("Repository"), unary("Event")]),
            alias("Repo", custom("Repository")),
        ]
    );
}

#[test]
fn flattening_keeps_records_with_more_than_the_flattened_field() {
    let before = vec![
        record(
            "Both",
            vec![field("x", RustType::Number), flatten_field("rest", custom("Rest"), false)],
        ),
        record("Plain", vec![field("only", custom("Rest"))]),
        record("Empty", vec![]),
    ];
    let mut segments = vec![
        record(
            "Both",
            vec![field("x", RustType::Number), flatten_field("rest", custom("Rest"), false)],
        ),
        record("Plain", vec![field("only", custom("Rest"))]),
        record("Empty", vec![]),
    ];
    flatten_type(&mut segments);
    assert_eq!(segments, before);
}

#[test]
fn flattening_is_not_defined_for_an_optional_field() {
    let segments = vec![record("Wrapper", vec![flatten_field("repository", custom("Repository"), true)])];
    assert!(!can_flatten(&segments));
    let segments = vec![record(
        "Two",
        vec![flatten_field("a", custom("A"), true), field("b", RustType::Number)],
    )];
    assert!(can_flatten(&segments));
}

fn with_borrow(mut m: RustStructMember) -> RustStructMember {
    m.attr.add_attr(RustFieldAttr::Serde(SerdeFieldAttr::Borrow));
    m
}

fn marked(seg: RustSegment) -> RustSegment {
    match seg {
        RustSegment::Struct(mut s) => {
            s.is_borrowed = true;
            RustSegment::Struct(s)
        }
        RustSegment::Enum(mut e) => {
            e.is_borrowed = true;
            RustSegment::Enum(e)
        }
        RustSegment::Alias(mut a) => {
            a.is_borrowed = true;
            RustSegment::Alias(a)
        }
    }
}

#[test]
fn borrow_propagation_reaches_every_user() {
    let mut segments = vec![
        record("C", vec![field("bs", RustType::Array(Box::new(custom("B")))), field("n", RustType::Number)]),
        record("B", vec![field("a", custom("A"))]),
        record("A", vec![field("name", text()), field("id", RustType::Number)]),
        record("D", vec![field("n", RustType::Number), field("e", custom("E"))]),
        record("E", vec![field("flag", RustType::Boolean)]),
        untagged("U", vec![unary("B"), unary("E"), nullary("N")]),
        alias("T", RustType::Dict(Box::new(RustType::Number), Box::new(custom("C")))),
    ];
    let deps = type_deps(&segments);
    adapt_borrow(&mut segments, &deps);
    let text_b = RustType::String { is_borrowed: true };
    let mut variant_b = RustEnumMember::from_kind(RustEnumMemberKind::Unary(borrowed("B")));
    variant_b.attr.add_attr(RustVariantAttr::Serde(SerdeVariantAttr::Borrow));
    assert_eq!(
        segments,
        vec![
            marked(record(
                "C",
                vec![
                    with_borrow(field("bs", RustType::Array(Box::new(borrowed("B"))))),
                    field("n", RustType::Number),
                ],
            )),
            marked(record("B", vec![with_borrow(field("a", borrowed("A")))])),
            marked(record("A", vec![with_borrow(field("name", text_b)), field("id", RustType::Number)])),
            record("D", vec![field("n", RustType::Number), field("e", custom("E"))]),
            record("E", vec![field("flag", RustType::Boolean)]),
            marked(RustSegment::Enum(RustEnum {
                attr: RustContainerAttrs::from_attr(RustStructAttr::Serde(SerdeContainerAttr::Untagged)),
                name: "U".to_owned(),
                comment: None,
                is_borrowed: false,
                member: vec![variant_b, unary("E"), nullary("N")],
            })),
            marked(alias("T", RustType::Dict(Box::new(RustType::Number), Box::new(borrowed("C"))))),
        ]
    );
}

#[test]
fn borrow_propagation_marks_an_isolated_record_with_text() {
    let mut segments = vec![record("Solo", vec![field("name", text())])];
    let deps = type_deps(&segments);
    adapt_borrow(&mut segments, &deps);
    assert_eq!(
        segments,
        vec![marked(record(
            "Solo",
            vec![with_borrow(field("name", RustType::String { is_borrowed: true }))],
        ))]
    );
}

#[test]
fn borrow_propagation_leaves_what_has_no_text_alone() {
    let before = vec![
        record("A", vec![field("n", RustType::Number), field("b", custom("B"))]),
        record("B", vec![field("u", RustType::Unknown), field("m", custom("Missing"))]),
    ];
    let mut segments = vec![
        record("A", vec![field("n", RustType::Number), field("b", custom("B"))]),
        record("B", vec![field("u", RustType::Unknown), field("m", custom("Missing"))]),
    ];
    let deps = type_deps(&segments);
    adapt_borrow(&mut segments, &deps);
    assert_eq!(segments, before);
}

#[test]
fn variant_attrs_stay_empty_without_borrow() {
    let v = RustVariantAttrs::new();
    assert!(v.as_inner().is_empty());
}
