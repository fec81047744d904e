use github_webhook_type_generator::ast::{
    Decl, TsInterfaceDecl, TsKeywordKind, TsPropertySignature, TsType, TsTypeAliasDecl, TsTypeElement,
};
use github_webhook_type_generator::compile::{emit, find_duplicate_name, transform};
use github_webhook_type_generator::frontend::FrontendError;
use github_webhook_type_generator::ir::{
    LiteralKeyMap, RustFieldAttr, RustFieldAttrs, RustMemberType, RustSegment, RustStruct,
    RustStructMember, RustType, SerdeFieldAttr, TypeName,
};
use github_webhook_type_generator::payload_types::{PingEvent, Schema};
use github_webhook_type_generator::strmap::StringMap;
use github_webhook_type_generator::{compile, CompileError};

fn kw(k: TsKeywordKind) -> TsType {
    TsType::Keyword(k)
}

fn lit(v: &str) -> TsType {
    TsType::LitStr(v.to_owned())
}

fn tref(n: &str) -> TsType {
    TsType::TypeRef(n.to_owned())
}

fn prop(key: &str, ty: TsType) -> TsTypeElement {
    TsTypeElement::Property(TsPropertySignature {
        key: key.to_owned(),
        optional: false,
        type_ann: ty,
        comment: None,
    })
}

fn interface(name: &str, body: Vec<TsTypeElement>) -> Decl {
    Decl::Interface(TsInterfaceDecl { name: name.to_owned(), body, comment: None })
}

fn type_alias(name: &str, ty: TsType) -> Decl {
    Decl::TypeAlias(TsTypeAliasDecl { name: name.to_owned(), type_ann: ty, comment: None })
}

fn field(name: &str, ty: RustType) -> RustStructMember {
    RustStructMember {
        attr: RustFieldAttrs::new(),
        name: name.to_owned(),
        ty: RustMemberType { ty, is_optional: false },
        comment: None,
    }
}

fn record(name: &str, members: Vec<RustStructMember>) -> RustSegment {
    RustSegment::Struct(RustStruct::from_members(name.to_owned(), None, members))
}

#[test]
fn a_module_compiles_to_declarations() {
    let decls = vec![
        interface("User", vec![prop("login", kw(TsKeywordKind::String)), prop("id", kw(TsKeywordKind::Number))]),
        interface(
            "Issue",
            vec![
                prop("user", tref("User")),
                prop("state", TsType::Union(vec![lit("open"), lit("closed")])),
                prop("labels", TsType::Array(Box::new(kw(TsKeywordKind::String)))),
            ],
        ),
    ];
    let text = compile(&decls).unwrap().to_string();
    assert_eq!(
        text,
        [
            "# [derive (Debug , Deserialize)] pub struct User < 'a > { # [serde (borrow = \"'a\")] pub login : :: std :: borrow :: Cow < 'a , str > , pub id : usize , }",
            "# [derive (Debug , Deserialize)] pub enum IssueState { # [serde (rename = \"closed\")] Closed , # [serde (rename = \"open\")] Open , }",
            "# [derive (Debug , Deserialize)] pub struct Issue < 'a > { # [serde (borrow = \"'a\")] pub user : User < 'a > , pub state : IssueState , # [serde (borrow = \"'a\")] pub labels : Vec < :: std :: borrow :: Cow < 'a , str > > , }",
        ]
        .join(" ")
    );
}

#[test]
fn a_union_of_tagged_records_compiles_to_a_tagged_sum_type() {
    let decls = vec![
        interface("IssueOpened", vec![prop("action", lit("opened")), prop("id", kw(TsKeywordKind::Number))]),
        interface("IssueClosed", vec![prop("action", lit("closed")), prop("id", kw(TsKeywordKind::Number))]),
        type_alias("IssueEvent", TsType::Union(vec![tref("IssueOpened"), tref("IssueClosed")])),
    ];
    let text = compile(&decls).unwrap().to_string();
    assert_eq!(
        text,
        [
            "# [derive (Debug , Deserialize)] pub struct IssueOpened { pub id : usize , }",
            "# [derive (Debug , Deserialize)] pub struct IssueClosed { pub id : usize , }",
            "# [derive (Debug , Deserialize)] # [serde (tag = \"action\")] pub enum IssueEvent { # [serde (rename = \"opened\")] Opened (IssueOpened) , # [serde (rename = \"closed\")] Closed (IssueClosed) , }",
        ]
        .join(" ")
    );
}

#[test]
fn an_intersection_alias_is_flattened_away() {
    let decls = vec![
        interface("Base", vec![prop("id", kw(TsKeywordKind::Number))]),
        type_alias("Wrapper", TsType::Intersection(vec![tref("Base"), TsType::TypeLit(vec![prop("kind", lit("x"))])])),
        interface("Holder", vec![prop("w", tref("Wrapper"))]),
    ];
    let text = compile(&decls).unwrap().to_string();
    assert_eq!(
        text,
        [
            "# [derive (Debug , Deserialize)] pub struct Base { pub id : usize , }",
            "pub type Wrapper = Base ;",
            "# [derive (Debug , Deserialize)] pub struct Holder { pub w : Wrapper , }",
        ]
        .join(" ")
    );
}

#[test]
fn the_empty_module_compiles_to_nothing() {
    assert_eq!(compile(&vec![]).unwrap().to_string(), "");
}

#[test]
fn a_front_end_error_ends_the_compilation() {
    let decls = vec![interface("Foo", vec![prop("v", kw(TsKeywordKind::Other))])];
    assert_eq!(compile(&decls).unwrap_err(), CompileError::Frontend(FrontendError::UnsupportedKeyword));
}

#[test]
fn a_name_that_two_segments_carry_ends_the_compilation() {
    let decls = vec![
        interface("A", vec![prop("id", kw(TsKeywordKind::Number))]),
        interface("B", vec![]),
        type_alias("A", kw(TsKeywordKind::Number)),
    ];
    assert_eq!(compile(&decls).unwrap_err(), CompileError::DuplicateName("A".to_owned()));
}

#[test]
fn a_cycle_of_uses_ends_the_compilation() {
    let decls = vec![
        interface("Leaf", vec![prop("id", kw(TsKeywordKind::Number))]),
        interface("A", vec![prop("b", tref("B")), prop("leaf", tref("Leaf"))]),
        interface("B", vec![prop("c", TsType::Array(Box::new(tref("C"))))]),
        interface("C", vec![prop("a", TsType::Union(vec![tref("A"), kw(TsKeywordKind::Null)]))]),
        interface("User", vec![prop("a", tref("A"))]),
    ];
    match compile(&decls).unwrap_err() {
        CompileError::CyclicDependency(names) => {
            let rotations = [vec!["A", "C", "B"], vec!["C", "B", "A"], vec!["B", "A", "C"]];
            assert!(rotations.iter().any(|r| *r == names), "{names:?}");
        }
        e => panic!("{e:?}"),
    }
}

#[test]
fn a_record_that_uses_itself_is_a_cycle() {
    let decls = vec![interface("Node", vec![prop("next", TsType::Union(vec![tref("Node"), kw(TsKeywordKind::Null)]))])];
    assert_eq!(compile(&decls).unwrap_err(), CompileError::CyclicDependency(vec!["Node".to_owned()]));
}

#[test]
fn a_name_that_is_no_identifier_ends_the_compilation() {
    let decls = vec![
        interface("Good", vec![prop("id", kw(TsKeywordKind::Number))]),
        interface("Foo", vec![prop("foo-bar", kw(TsKeywordKind::Number))]),
    ];
    assert_eq!(compile(&decls).unwrap_err(), CompileError::InvalidIdentifier("Foo".to_owned()));
}

#[test]
fn an_optional_flattened_wrapper_ends_the_passes() {
    let mut segments = vec![record(
        "Wrapper",
        vec![RustStructMember {
            attr: RustFieldAttrs::from_attr(RustFieldAttr::Serde(SerdeFieldAttr::Flatten)),
            name: "inner".to_owned(),
            ty: RustMemberType { ty: RustType::Custom(TypeName::new("Inner".to_owned())), is_optional: true },
            comment: None,
        }],
    )];
    let lkm: LiteralKeyMap = StringMap::new();
    assert_eq!(transform(&mut segments, &lkm), Err(CompileError::OptionalFlatten));
}

#[test]
fn transform_runs_the_passes_in_order() {
    let mut segments = vec![
        record("A", vec![field("name", RustType::String { is_borrowed: false })]),
        record("B", vec![field("a", RustType::Custom(TypeName::new("A".to_owned())))]),
    ];
    let lkm: LiteralKeyMap = StringMap::new();
    assert_eq!(transform(&mut segments, &lkm), Ok(()));
    assert_eq!(
        emit(&segments).unwrap().to_string(),
        [
            "# [derive (Debug , Deserialize)] pub struct A < 'a > { # [serde (borrow = \"'a\")] pub name : :: std :: borrow :: Cow < 'a , str > , }",
            "# [derive (Debug , Deserialize)] pub struct B < 'a > { # [serde (borrow = \"'a\")] pub a : A < 'a > , }",
        ]
        .join(" ")
    );
}

#[test]
fn find_duplicate_name_finds_the_second_occurrence() {
    let segments = vec![record("A", vec![]), record("B", vec![]), record("A", vec![]), record("B", vec![])];
    assert_eq!(find_duplicate_name(&segments), Some(2));
    let segments = vec![record("A", vec![]), record("B", vec![])];
    assert_eq!(find_duplicate_name(&segments), None);
}

#[test]
fn payload_types_can_be_built() {
    let ping = PingEvent { zen: "Keep it logically awesome.".to_owned(), hook_id: 1 };
    assert_eq!(ping.hook_id, 1);
    let schema = Schema::PingEvent(ping);
    assert!(matches!(schema, Schema::PingEvent(_)));
}
