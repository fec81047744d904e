use github_webhook_type_generator::ir::{
    type_deps, Attrs, RenameRule, RustAlias, RustContainerAttrs, RustEnum, RustEnumMember,
    RustEnumMemberKind, RustFieldAttr, RustFieldAttrs, RustMemberType, RustSegment, RustStruct,
    RustStructAttr, RustStructMember, RustType, SerdeContainerAttr, SerdeFieldAttr, TypeName,
};

fn custom(name: &str) -> RustType {
    RustType::Custom(TypeName::new(name.to_owned()))
}

fn field(name: &str, ty: RustType) -> RustStructMember {
    RustStructMember {
        attr: RustFieldAttrs::new(),
        name: name.to_owned(),
        ty: RustMemberType { ty, is_optional: false },
        comment: None,
    }
}

fn record(name: &str, members: Vec<RustStructMember>) -> RustSegment {
    RustSegment::Struct(RustStruct::from_members(name.to_owned(), None, members))
}

#[test]
fn type_name_new_is_owned() {
    let t = TypeName::new("User".to_owned());
    assert_eq!(t.name, "User");
    assert!(!t.is_borrowed);
}

#[test]
fn to_ident_names_every_form() {
    assert_eq!(RustType::String { is_borrowed: false }.to_ident(), "String");
    assert_eq!(RustType::Number.to_ident(), "Number");
    assert_eq!(RustType::Boolean.to_ident(), "Boolean");
    assert_eq!(custom("User").to_ident(), "User");
    assert_eq!(RustType::Array(Box::new(custom("Label"))).to_ident(), "Label");
    assert_eq!(
        RustType::Array(Box::new(RustType::Array(Box::new(RustType::Number)))).to_ident(),
        "Number"
    );
    assert_eq!(RustType::Unit.to_ident(), "Unit");
    assert_eq!(RustType::Unknown.to_ident(), "Unknown");
    assert_eq!(RustType::UnknownLiteral.to_ident(), "UnknownLiteral");
    assert_eq!(RustType::UnknownIntersection.to_ident(), "UnknownIntersection");
    assert_eq!(
        RustType::Dict(Box::new(RustType::Number), Box::new(RustType::Number)).to_ident(),
        "Map"
    );
}

#[test]
fn is_unknown_looks_into_arrays_and_maps() {
    assert!(RustType::UnknownLiteral.is_unknown());
    assert!(RustType::UnknownIntersection.is_unknown());
    assert!(!RustType::Unknown.is_unknown());
    assert!(!custom("User").is_unknown());
    assert!(RustType::Array(Box::new(RustType::UnknownLiteral)).is_unknown());
    assert!(!RustType::Array(Box::new(RustType::Number)).is_unknown());
    assert!(
        RustType::Dict(Box::new(RustType::Number), Box::new(RustType::UnknownIntersection))
            .is_unknown()
    );
    assert!(
        RustType::Dict(Box::new(RustType::UnknownLiteral), Box::new(RustType::Number)).is_unknown()
    );
    assert!(!RustType::Dict(Box::new(RustType::Number), Box::new(RustType::Boolean)).is_unknown());
}

#[test]
fn is_borrowed_looks_into_arrays_and_maps() {
    assert!(RustType::String { is_borrowed: true }.is_borrowed());
    assert!(!RustType::String { is_borrowed: false }.is_borrowed());
    assert!(!custom("User").is_borrowed());
    assert!(RustType::Custom(TypeName { name: "User".to_owned(), is_borrowed: true }).is_borrowed());
    assert!(RustType::Array(Box::new(RustType::String { is_borrowed: true })).is_borrowed());
    assert!(
        RustType::Dict(
            Box::new(RustType::Number),
            Box::new(RustType::String { is_borrowed: true })
        )
        .is_borrowed()
    );
    assert!(!RustType::Number.is_borrowed());
    assert!(!RustType::Unit.is_borrowed());
}

#[test]
fn as_custom_gives_the_name_of_a_named_type_only() {
    assert_eq!(custom("User").as_custom().map(|t| t.name.as_str()), Some("User"));
    assert!(RustType::Number.as_custom().is_none());
    assert!(RustType::Array(Box::new(custom("User"))).as_custom().is_none());
}

#[test]
fn as_mut_custom_lets_the_name_be_marked() {
    let mut t = custom("User");
    t.as_mut_custom().unwrap().is_borrowed = true;
    assert_eq!(t, RustType::Custom(TypeName { name: "User".to_owned(), is_borrowed: true }));
    let mut n = RustType::Number;
    assert!(n.as_mut_custom().is_none());
    assert_eq!(n, RustType::Number);
}

#[test]
fn get_using_looks_through_arrays_only() {
    assert_eq!(custom("User").get_using().map(|t| t.name.as_str()), Some("User"));
    let nested = RustType::Array(Box::new(RustType::Array(Box::new(custom("Label")))));
    assert_eq!(nested.get_using().map(|t| t.name.as_str()), Some("Label"));
    let map = RustType::Dict(Box::new(RustType::Number), Box::new(custom("User")));
    assert!(map.get_using().is_none());
    assert!(RustType::Number.get_using().is_none());
}

#[test]
fn is_string_tells_text_apart() {
    assert!(RustType::String { is_borrowed: false }.is_string());
    assert!(RustType::String { is_borrowed: true }.is_string());
    assert!(!RustType::Number.is_string());
    assert!(!custom("String").is_string());
}

#[test]
fn default_type_is_unit() {
    assert_eq!(RustType::default(), RustType::Unit);
}

#[test]
fn clone_of_a_type_is_equal() {
    let t = RustType::Dict(
        Box::new(RustType::Array(Box::new(custom("User")))),
        Box::new(RustType::String { is_borrowed: true }),
    );
    assert_eq!(t.clone(), t);
}

#[test]
fn convert_to_pascal_joins_capitalized_terms() {
    let mut s = "issue_opened".to_owned();
    RenameRule::SnakeCase.convert_to_pascal(&mut s);
    assert_eq!(s, "IssueOpened");
    let mut s = "ISSUE_OPENED".to_owned();
    RenameRule::ScreamingSnakeCase.convert_to_pascal(&mut s);
    assert_eq!(s, "IssueOpened");
    let mut s = "opened".to_owned();
    RenameRule::SnakeCase.convert_to_pascal(&mut s);
    assert_eq!(s, "Opened");
    let mut s = "__a__bC_".to_owned();
    RenameRule::SnakeCase.convert_to_pascal(&mut s);
    assert_eq!(s, "ABc");
    let mut s = String::new();
    RenameRule::SnakeCase.convert_to_pascal(&mut s);
    assert_eq!(s, "");
}

#[test]
fn convert_to_pascal_leaves_pascal_alone() {
    let mut s = "Issue_opened".to_owned();
    RenameRule::PascalCase.convert_to_pascal(&mut s);
    assert_eq!(s, "Issue_opened");
}

#[test]
fn convert_to_snake_separates_at_capitals() {
    let mut s = "PullRequest".to_owned();
    RenameRule::PascalCase.convert_to_snake(&mut s);
    assert_eq!(s, "pull_request");
    let mut s = "User".to_owned();
    RenameRule::PascalCase.convert_to_snake(&mut s);
    assert_eq!(s, "user");
    let mut s = "HTTPServer".to_owned();
    RenameRule::PascalCase.convert_to_snake(&mut s);
    assert_eq!(s, "h_t_t_p_server");
    let mut s = String::new();
    RenameRule::PascalCase.convert_to_snake(&mut s);
    assert_eq!(s, "");
}

#[test]
fn rename_rule_words_are_those_of_serde() {
    assert_eq!(RenameRule::PascalCase.to_string(), "PascalCase");
    assert_eq!(RenameRule::SnakeCase.to_string(), "snake_case");
    assert_eq!(RenameRule::ScreamingSnakeCase.to_string(), "SCREAMING_SNAKE_CASE");
    assert!(RenameRule::PascalCase.is_pascal_case());
    assert!(!RenameRule::SnakeCase.is_pascal_case());
    assert!(!RenameRule::ScreamingSnakeCase.is_pascal_case());
}

#[test]
fn attrs_keep_their_order() {
    let mut a: RustFieldAttrs = Attrs::new();
    assert!(a.as_inner().is_empty());
    a.add_attr(RustFieldAttr::Serde(SerdeFieldAttr::Flatten));
    a.add_attr(RustFieldAttr::Serde(SerdeFieldAttr::Rename("type".to_owned())));
    assert_eq!(
        a.as_inner(),
        &vec![
            RustFieldAttr::Serde(SerdeFieldAttr::Flatten),
            RustFieldAttr::Serde(SerdeFieldAttr::Rename("type".to_owned())),
        ]
    );
    let b = RustFieldAttrs::from_attr(RustFieldAttr::Serde(SerdeFieldAttr::Borrow));
    assert_eq!(b.as_inner(), &vec![RustFieldAttr::Serde(SerdeFieldAttr::Borrow)]);
}

#[test]
fn attrs_retain_keeps_what_the_predicate_accepts() {
    let mut a: RustContainerAttrs = Attrs::new();
    a.add_attr(RustStructAttr::Serde(SerdeContainerAttr::Untagged));
    a.add_attr(RustStructAttr::Serde(SerdeContainerAttr::Tag("kind".to_owned())));
    a.add_attr(RustStructAttr::Serde(SerdeContainerAttr::Untagged));
    a.add_attr(RustStructAttr::Serde(SerdeContainerAttr::RenameAll(RenameRule::SnakeCase)));
    a.retain(|r| !matches!(r, RustStructAttr::Serde(SerdeContainerAttr::Untagged)));
    assert_eq!(
        a.as_inner(),
        &vec![
            RustStructAttr::Serde(SerdeContainerAttr::Tag("kind".to_owned())),
            RustStructAttr::Serde(SerdeContainerAttr::RenameAll(RenameRule::SnakeCase)),
        ]
    );
}

#[test]
fn container_attr_accessors() {
    let tag = SerdeContainerAttr::Tag("kind".to_owned());
    assert!(tag.is_tag());
    assert!(!SerdeContainerAttr::Untagged.is_tag());
    assert!(!SerdeContainerAttr::RenameAll(RenameRule::SnakeCase).is_tag());
    let attr = RustStructAttr::Serde(SerdeContainerAttr::Untagged);
    assert_eq!(attr.as_serde(), Some(&SerdeContainerAttr::Untagged));
}

#[test]
fn member_type_is_unknown_follows_its_type() {
    assert!(RustMemberType { ty: RustType::UnknownLiteral, is_optional: true }.is_unknown());
    assert!(!RustMemberType { ty: RustType::Number, is_optional: true }.is_unknown());
}

#[test]
fn from_members_builds_plain_containers() {
    let s = RustStruct::from_members("Foo".to_owned(), None, vec![field("a", RustType::Number)]);
    assert_eq!(s.name, "Foo");
    assert!(s.attr.as_inner().is_empty());
    assert!(!s.is_borrowed);
    assert_eq!(s.member.len(), 1);
    let e = RustEnum::from_members(
        "Bar".to_owned(),
        None,
        vec![RustEnumMember::from_kind(RustEnumMemberKind::Nullary("A".to_owned()))],
    );
    assert_eq!(e.name, "Bar");
    assert!(e.attr.as_inner().is_empty());
    assert!(!e.is_borrowed);
    assert_eq!(e.member.len(), 1);
    assert!(e.member[0].attr.as_inner().is_empty());
}

#[test]
fn name_unary_names_a_unary_variant() {
    let mut k = RustEnumMemberKind::Unary(custom("IssueOpened"));
    k.name_unary("opened".to_owned());
    assert_eq!(
        k,
        RustEnumMemberKind::UnaryNamed { variant_name: "opened".to_owned(), ty: custom("IssueOpened") }
    );
}

#[test]
fn enum_member_kind_accessors() {
    let n = RustEnumMemberKind::Nullary("A".to_owned());
    let u = RustEnumMemberKind::Unary(custom("B"));
    let un = RustEnumMemberKind::UnaryNamed { variant_name: "C".to_owned(), ty: RustType::Number };
    assert!(n.is_nullary());
    assert!(!u.is_nullary());
    assert!(!un.is_nullary());
    assert!(n.as_unary().is_none());
    assert_eq!(u.as_unary(), Some(&custom("B")));
    assert!(un.as_unary().is_none());
    assert!(n.as_type().is_none());
    assert_eq!(u.as_type(), Some(&custom("B")));
    assert_eq!(un.as_type(), Some(&RustType::Number));
    assert_eq!(n.variant_name(), "A");
    assert_eq!(u.variant_name(), "B");
    assert_eq!(un.variant_name(), "C");
}

#[test]
fn as_type_mut_reaches_the_wrapped_type() {
    let mut un = RustEnumMemberKind::UnaryNamed { variant_name: "C".to_owned(), ty: RustType::Number };
    *un.as_type_mut().unwrap() = RustType::Boolean;
    assert_eq!(
        un,
        RustEnumMemberKind::UnaryNamed { variant_name: "C".to_owned(), ty: RustType::Boolean }
    );
    let mut n = RustEnumMemberKind::Nullary("A".to_owned());
    assert!(n.as_type_mut().is_none());
}

#[test]
fn segment_name_is_that_of_its_content() {
    assert_eq!(record("Foo", vec![]).name(), "Foo");
    let e = RustSegment::Enum(RustEnum::from_members("Bar".to_owned(), None, vec![]));
    assert_eq!(e.name(), "Bar");
    let a = RustSegment::Alias(RustAlias {
        name: "Baz".to_owned(),
        is_borrowed: false,
        comment: None,
        ty: RustType::Number,
    });
    assert_eq!(a.name(), "Baz");
}

#[test]
fn type_deps_orders_what_is_used_before_what_uses_it() {
    let segments = vec![
        record("A", vec![field("b", custom("B")), field("c", RustType::Array(Box::new(custom("C"))))]),
        record("B", vec![field("d", custom("D"))]),
        record(
            "C",
            vec![field(
                "d",
                RustType::Dict(Box::new(RustType::String { is_borrowed: false }), Box::new(custom("D"))),
            )],
        ),
        record("D", vec![field("n", RustType::Number)]),
    ];
    let deps = type_deps(&segments);
    let order = deps.co_topo_sort().unwrap();
    assert_eq!(order.len(), 4);
    let pos = |x: usize| order.iter().position(|&y| y == x).unwrap();
    assert!(pos(3) < pos(1));
    assert!(pos(3) < pos(2));
    assert!(pos(1) < pos(0));
    assert!(pos(2) < pos(0));
}

#[test]
fn type_deps_ignores_names_that_no_segment_has() {
    let segments = vec![record("A", vec![field("x", custom("Missing"))])];
    let deps = type_deps(&segments);
    assert_eq!(deps.co_topo_sort(), Ok(vec![0]));
}

#[test]
fn type_deps_finds_a_cycle() {
    let segments = vec![
        record("A", vec![field("b", custom("B"))]),
        record("B", vec![field("a", custom("A"))]),
    ];
    let deps = type_deps(&segments);
    let cycle = deps.co_topo_sort().unwrap_err();
    assert!([vec![0, 1], vec![1, 0]].contains(&cycle), "{cycle:?}");
}
