use github_webhook_type_generator::ir::{
    RenameRule, RustAlias, RustComment, RustContainerAttrs, RustEnum, RustEnumMember,
    RustEnumMemberKind, RustFieldAttr, RustFieldAttrs, RustMemberType, RustSegment, RustStruct,
    RustStructAttr, RustStructMember, RustType, RustVariantAttr, SerdeContainerAttr, SerdeFieldAttr,
    SerdeVariantAttr, TypeName,
};
use github_webhook_type_generator::to_tokens::{emit_segment, is_emittable};
use github_webhook_type_generator::tokens::is_ident_str;

fn custom(name: &str) -> RustType {
    RustType::Custom(TypeName::new(name.to_owned()))
}

fn field(name: &str, ty: RustType, is_optional: bool) -> RustStructMember {
    RustStructMember {
        attr: RustFieldAttrs::new(),
        name: name.to_owned(),
        ty: RustMemberType { ty, is_optional },
        comment: None,
    }
}

fn alias(name: &str, ty: RustType) -> RustSegment {
    RustSegment::Alias(RustAlias { name: name.to_owned(), is_borrowed: false, comment: None, ty })
}

fn emitted(seg: RustSegment) -> String {
    assert!(is_emittable(&seg));
    seg.into_token_stream().to_string()
}

#[test]
fn a_record_is_emitted_with_its_fields() {
    let seg = RustSegment::Struct(RustStruct::from_members(
        "Foo".to_owned(),
        None,
        vec![field("a", RustType::String { is_borrowed: false }, false), field("b", RustType::Number, true)],
    ));
    assert_eq!(
        emitted(seg),
        "# [derive (Debug , Deserialize)] pub struct Foo { pub a : String , pub b : Option < usize > , }"
    );
}

#[test]
fn an_empty_record_has_empty_braces() {
    let seg = RustSegment::Struct(RustStruct::from_members("Foo".to_owned(), None, vec![]));
    assert_eq!(emitted(seg), "# [derive (Debug , Deserialize)] pub struct Foo { }");
}

#[test]
fn every_form_of_type_is_emitted() {
    assert_eq!(emitted(alias("T", RustType::String { is_borrowed: false })), "pub type T = String ;");
    assert_eq!(
        emitted(alias("T", RustType::String { is_borrowed: true })),
        "pub type T = :: std :: borrow :: Cow < 'a , str > ;"
    );
    assert_eq!(emitted(alias("T", RustType::Number)), "pub type T = usize ;");
    assert_eq!(emitted(alias("T", RustType::Boolean)), "pub type T = bool ;");
    assert_eq!(emitted(alias("T", custom("User"))), "pub type T = User ;");
    assert_eq!(
        emitted(alias(
            "T",
            RustType::Custom(TypeName { name: "User".to_owned(), is_borrowed: true })
        )),
        "pub type T = User < 'a > ;"
    );
    assert_eq!(
        emitted(alias("T", RustType::Array(Box::new(RustType::Array(Box::new(RustType::Number)))))),
        "pub type T = Vec < Vec < usize > > ;"
    );
    assert_eq!(emitted(alias("T", RustType::Unit)), "pub type T = () ;");
    assert_eq!(emitted(alias("T", RustType::Unknown)), "pub type T = Value ;");
    assert_eq!(emitted(alias("T", RustType::UnknownLiteral)), "pub type T = UnknownLiteral ;");
    assert_eq!(
        emitted(alias("T", RustType::UnknownIntersection)),
        "pub type T = UnknownIntersection ;"
    );
    assert_eq!(
        emitted(alias(
            "T",
            RustType::Dict(Box::new(RustType::String { is_borrowed: false }), Box::new(custom("V")))
        )),
        "pub type T = HashMap < String , V > ;"
    );
}

#[test]
fn a_borrowing_alias_has_a_lifetime_and_a_comment() {
    let seg = RustSegment::Alias(RustAlias {
        name: "Names".to_owned(),
        is_borrowed: true,
        comment: Some(RustComment("The \"names\".".to_owned())),
        ty: RustType::Array(Box::new(RustType::String { is_borrowed: true })),
    });
    assert_eq!(
        emitted(seg),
        "# [doc = \"The \\\"names\\\".\"] pub type Names < 'a > = Vec < :: std :: borrow :: Cow < 'a , str > > ;"
    );
}

#[test]
fn field_attributes_and_comments_precede_the_field() {
    let mut attr = RustFieldAttrs::new();
    attr.add_attr(RustFieldAttr::Serde(SerdeFieldAttr::Rename("type".to_owned())));
    attr.add_attr(RustFieldAttr::Serde(SerdeFieldAttr::Borrow));
    attr.add_attr(RustFieldAttr::Serde(SerdeFieldAttr::Flatten));
    let member = RustStructMember {
        attr,
        name: "type_".to_owned(),
        ty: RustMemberType { ty: RustType::String { is_borrowed: true }, is_optional: false },
        comment: Some(RustComment("The type.".to_owned())),
    };
    let mut s = RustStruct::from_members(
        "Foo".to_owned(),
        Some(RustComment("A foo.".to_owned())),
        vec![member],
    );
    s.is_borrowed = true;
    assert_eq!(
        emitted(RustSegment::Struct(s)),
        "# [derive (Debug , Deserialize)] # [doc = \"A foo.\"] pub struct Foo < 'a > { # [doc = \"The type.\"] # [serde (rename = \"type\")] # [serde (borrow = \"'a\")] # [serde (flatten)] pub type_ : :: std :: borrow :: Cow < 'a , str > , }"
    );
}

#[test]
fn a_field_with_a_placeholder_type_is_left_out() {
    let seg = RustSegment::Struct(RustStruct::from_members(
        "Foo".to_owned(),
        None,
        vec![
            field("action", RustType::UnknownLiteral, false),
            field("not an ident", RustType::Array(Box::new(RustType::UnknownIntersection)), true),
            field("id", RustType::Number, false),
        ],
    ));
    assert_eq!(emitted(seg), "# [derive (Debug , Deserialize)] pub struct Foo { pub id : usize , }");
}

#[test]
fn a_sum_type_of_names_derives_deserialize() {
    let mut renamed = RustEnumMember::from_kind(RustEnumMemberKind::Nullary("InProgress".to_owned()));
    renamed.attr.add_attr(RustVariantAttr::Serde(SerdeVariantAttr::Rename("in_progress".to_owned())));
    let e = RustEnum::from_members(
        "State".to_owned(),
        None,
        vec![RustEnumMember::from_kind(RustEnumMemberKind::Nullary("Open".to_owned())), renamed],
    );
    assert_eq!(
        emitted(RustSegment::Enum(e)),
        "# [derive (Debug , Deserialize)] pub enum State { Open , # [serde (rename = \"in_progress\")] InProgress , }"
    );
}

#[test]
fn a_sum_type_with_payloads_and_no_attribute_derives_debug_only() {
    let e = RustEnum::from_members(
        "Either".to_owned(),
        None,
        vec![
            RustEnumMember::from_kind(RustEnumMemberKind::Unary(custom("Left"))),
            RustEnumMember::from_kind(RustEnumMemberKind::Nullary("Neither".to_owned())),
        ],
    );
    assert_eq!(
        emitted(RustSegment::Enum(e)),
        "# [derive (Debug)] pub enum Either { Left (Left) , Neither , }"
    );
}

#[test]
fn container_attributes_precede_the_comment() {
    let mut attr = RustContainerAttrs::new();
    attr.add_attr(RustStructAttr::Serde(SerdeContainerAttr::Tag("kind".to_owned())));
    attr.add_attr(RustStructAttr::Serde(SerdeContainerAttr::RenameAll(RenameRule::SnakeCase)));
    attr.add_attr(RustStructAttr::Serde(SerdeContainerAttr::Untagged));
    let mut borrowing = RustEnumMember::from_kind(RustEnumMemberKind::UnaryNamed {
        variant_name: "Opened".to_owned(),
        ty: RustType::Custom(TypeName { name: "IssueOpened".to_owned(), is_borrowed: true }),
    });
    borrowing.attr.add_attr(RustVariantAttr::Serde(SerdeVariantAttr::Borrow));
    let e = RustEnum {
        attr,
        name: "Event".to_owned(),
        comment: Some(RustComment("An event.".to_owned())),
        is_borrowed: true,
        member: vec![
            borrowing,
            RustEnumMember::from_kind(RustEnumMemberKind::Unary(RustType::Array(Box::new(custom("Label"))))),
        ],
    };
    assert_eq!(
        emitted(RustSegment::Enum(e)),
        "# [derive (Debug , Deserialize)] # [serde (tag = \"kind\")] # [serde (rename_all = \"snake_case\")] # [serde (untagged)] # [doc = \"An event.\"] pub enum Event < 'a > { # [serde (borrow = \"'a\")] Opened (IssueOpened < 'a >) , Label (Vec < Label >) , }"
    );
}

#[test]
fn a_variant_around_a_placeholder_becomes_other() {
    let e = RustEnum::from_members(
        "E".to_owned(),
        None,
        vec![
            RustEnumMember::from_kind(RustEnumMemberKind::Unary(RustType::UnknownLiteral)),
            RustEnumMember::from_kind(RustEnumMemberKind::UnaryNamed {
                variant_name: "not valid".to_owned(),
                ty: RustType::UnknownIntersection,
            }),
            RustEnumMember::from_kind(RustEnumMemberKind::Unary(RustType::Number)),
        ],
    );
    assert_eq!(
        emitted(RustSegment::Enum(e)),
        "# [derive (Debug)] pub enum E { Other , Other , Number (usize) , }"
    );
}

#[test]
fn emit_segment_appends_to_the_stream() {
    let mut ts = alias("A", RustType::Number).into_token_stream();
    emit_segment(&alias("B", RustType::Boolean), &mut ts);
    assert_eq!(ts.to_string(), "pub type A = usize ; pub type B = bool ;");
}

#[test]
fn what_is_no_identifier_cannot_be_emitted() {
    assert!(!is_emittable(&alias("not-valid", RustType::Number)));
    assert!(!is_emittable(&alias("", RustType::Number)));
    assert!(!is_emittable(&alias("T", custom("+1"))));
    assert!(!is_emittable(&alias("T", RustType::Array(Box::new(custom("a b"))))));
    assert!(!is_emittable(&alias(
        "T",
        RustType::Dict(Box::new(RustType::Number), Box::new(custom("1x")))
    )));
    let s = RustStruct::from_members("Foo".to_owned(), None, vec![field("foo-bar", RustType::Number, false)]);
    assert!(!is_emittable(&RustSegment::Struct(s)));
    let e = RustEnum::from_members(
        "E".to_owned(),
        None,
        vec![RustEnumMember::from_kind(RustEnumMemberKind::Nullary("".to_owned()))],
    );
    assert!(!is_emittable(&RustSegment::Enum(e)));
    let e = RustEnum::from_members(
        "E".to_owned(),
        None,
        vec![RustEnumMember::from_kind(RustEnumMemberKind::UnaryNamed {
            variant_name: "a-b".to_owned(),
            ty: RustType::Number,
        })],
    );
    assert!(!is_emittable(&RustSegment::Enum(e)));
}

#[test]
fn identifiers_are_ascii_words() {
    assert!(is_ident_str("a"));
    assert!(is_ident_str("_"));
    assert!(is_ident_str("_9"));
    assert!(is_ident_str("type_"));
    assert!(is_ident_str("Self"));
    assert!(is_ident_str("PullRequest2"));
    assert!(!is_ident_str(""));
    assert!(!is_ident_str("9a"));
    assert!(!is_ident_str("a-b"));
    assert!(!is_ident_str("a b"));
    assert!(!is_ident_str("é"));
    assert!(!is_ident_str("aé"));
    assert!(!is_ident_str("+1"));
}
