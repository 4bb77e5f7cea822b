use allow_report::list::ListColumn;

#[test]
fn parse_csv_keeps_requested_order_and_ignores_case() {
    let cols = ListColumn::parse_csv(" Reason, id ,STATUS").unwrap();
    assert_eq!(cols, vec![ListColumn::Reason, ListColumn::Id, ListColumn::Status]);
}

#[test]
fn parse_csv_all_selects_every_column() {
    let cols = ListColumn::parse_csv("  ALL ").unwrap();
    assert_eq!(cols.len(), 17);
    assert_eq!(cols, ListColumn::all());
    assert_eq!(cols[0], ListColumn::Id);
    assert_eq!(cols[16], ListColumn::Reason);
}

#[test]
fn parse_csv_refuses_empty_unknown_and_duplicate_names() {
    let names = "id, status, matches, kind, family, owner, classification, scope, source_package, evidence_count, broken_evidence_references, weak_evidence_references, selector_precision, broad_scope, review_after, expires, reason";
    assert_eq!(
        ListColumn::parse_csv("id,,kind").unwrap_err(),
        format!("empty column name in --columns; valid columns: {names}")
    );
    assert_eq!(
        ListColumn::parse_csv("id,bogus").unwrap_err(),
        format!("unknown --columns name `bogus`; valid columns: {names}")
    );
    assert_eq!(
        ListColumn::parse_csv("id,ID").unwrap_err(),
        format!("duplicate --columns name `ID`; valid columns: {names}")
    );
    assert_eq!(
        ListColumn::parse_csv("").unwrap_err(),
        format!("empty column name in --columns; valid columns: {names}")
    );
}

#[test]
fn default_columns_are_the_concise_projection() {
    assert_eq!(
        ListColumn::defaults(),
        vec![
            ListColumn::Id,
            ListColumn::Status,
            ListColumn::Kind,
            ListColumn::Scope,
            ListColumn::Owner,
            ListColumn::Reason
        ]
    );
    assert_eq!(ListColumn::SourcePackage.header(), "source_package");
}
