use github_webhook_type_generator::case::{detect_case, CaseConvention};
use github_webhook_type_generator::ir::RenameRule;

#[test]
fn detect_case_tells_the_five_conventions_apart() {
    assert_eq!(detect_case("opened"), CaseConvention::Lower);
    assert_eq!(detect_case("OPENED"), CaseConvention::Upper);
    assert_eq!(detect_case("created_at"), CaseConvention::Snake);
    assert_eq!(detect_case("IssueOpened"), CaseConvention::Pascal);
    assert_eq!(detect_case("ISSUE_OPENED"), CaseConvention::ScreamingSnake);
}

#[test]
fn detect_case_of_the_empty_name_is_lower() {
    assert_eq!(detect_case(""), CaseConvention::Lower);
}

#[test]
fn detect_case_reads_a_capital_with_an_underscore_as_screaming_snake() {
    assert_eq!(detect_case("Created_at"), CaseConvention::ScreamingSnake);
}

#[test]
fn cast_widens_a_bare_convention_to_its_separated_form() {
    let mut c = CaseConvention::Lower;
    assert_eq!(c.cast(CaseConvention::Snake), Some(()));
    assert_eq!(c, CaseConvention::Snake);
    let mut c = CaseConvention::Upper;
    assert_eq!(c.cast(CaseConvention::ScreamingSnake), Some(()));
    assert_eq!(c, CaseConvention::ScreamingSnake);
}

#[test]
fn cast_keeps_the_separated_form_over_the_bare_one() {
    let mut c = CaseConvention::Snake;
    assert_eq!(c.cast(CaseConvention::Lower), Some(()));
    assert_eq!(c, CaseConvention::Snake);
    let mut c = CaseConvention::ScreamingSnake;
    assert_eq!(c.cast(CaseConvention::Upper), Some(()));
    assert_eq!(c, CaseConvention::ScreamingSnake);
}

#[test]
fn cast_refuses_any_other_mismatch() {
    let mut c = CaseConvention::Pascal;
    assert_eq!(c.cast(CaseConvention::Snake), None);
    assert_eq!(c, CaseConvention::Pascal);
    let mut c = CaseConvention::Lower;
    assert_eq!(c.cast(CaseConvention::Upper), None);
    assert_eq!(c, CaseConvention::Lower);
    let mut c = CaseConvention::Snake;
    assert_eq!(c.cast(CaseConvention::ScreamingSnake), None);
}

#[test]
fn cast_accepts_the_same_convention() {
    let mut c = CaseConvention::Pascal;
    assert_eq!(c.cast(CaseConvention::Pascal), Some(()));
    assert_eq!(c, CaseConvention::Pascal);
}

#[test]
fn into_rename_rule_maps_each_convention() {
    assert_eq!(CaseConvention::Lower.into_rename_rule(), RenameRule::SnakeCase);
    assert_eq!(CaseConvention::Snake.into_rename_rule(), RenameRule::SnakeCase);
    assert_eq!(CaseConvention::Pascal.into_rename_rule(), RenameRule::PascalCase);
    assert_eq!(CaseConvention::Upper.into_rename_rule(), RenameRule::ScreamingSnakeCase);
    assert_eq!(
        CaseConvention::ScreamingSnake.into_rename_rule(),
        RenameRule::ScreamingSnakeCase
    );
}
