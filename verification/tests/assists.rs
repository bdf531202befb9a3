use hir_ty::assists::{
    check, check_assist, check_assist_by_label, check_assist_not_applicable, check_assist_target,
    check_assist_unresolved, check_doc_test, chosen_assist, labels, render, Assist, CheckFailure,
    ExpectedResult, FileText, SourceChange, TextRange,
};

fn assist(label: &str, group: Option<&str>) -> Assist {
    Assist {
        id: label.to_lowercase().replace(' ', "_"),
        label: label.to_string(),
        group: group.map(|g| g.to_string()),
        target: TextRange { start: 59, end: 60 },
        source_change: None,
    }
}

#[test]
fn labels_lists_each_assist_on_a_line() {
    let assists = vec![
        assist("Convert integer base", None),
        assist("Extract into variable", None),
        assist("Extract into function", None),
        assist("Replace with match", None),
    ];
    assert_eq!(
        labels(&assists),
        "Convert integer base\nExtract into variable\nExtract into function\nReplace with match\n"
    );
}

#[test]
fn labels_of_nothing_is_empty() {
    assert_eq!(labels(&Vec::new()), "");
}

#[test]
fn not_applicable_passes_on_no_assist() {
    assert_eq!(check_assist_not_applicable(&Vec::new()), Ok(()));
    assert_eq!(
        check_assist_not_applicable(&vec![assist("Add `#[derive]`", None)]),
        Err(CheckFailure::Applicable)
    );
}

#[test]
fn unresolved_wants_no_source_change() {
    assert_eq!(check_assist_unresolved(&vec![assist("Extract into variable", None)]), Ok(()));
    assert_eq!(check_assist_unresolved(&Vec::new()), Err(CheckFailure::NotApplicable));
}

#[test]
fn target_is_cut_out_of_the_text() {
    let mut a = assist("Extract into variable", None);
    a.target = TextRange { start: 4, end: 7 };
    assert_eq!(check_assist_target(&vec![a.clone()], "let foo = 1;", "foo"), Ok(()));
    assert_eq!(
        check_assist_target(&vec![a.clone()], "let foo = 1;", "fo"),
        Err(CheckFailure::TargetMismatch)
    );
    assert_eq!(
        check(&vec![a], "let", &ExpectedResult::Target("foo".to_string()), None),
        Err(CheckFailure::TargetOutOfText)
    );
}

fn file(path: &str, text: &str) -> FileText {
    FileText { path: path.to_string(), text: text.to_string() }
}

fn resolved(label: &str, edits: Vec<FileText>, created: Vec<FileText>) -> Assist {
    let mut a = assist(label, None);
    a.source_change =
        Some(SourceChange { source_file_edits: edits, file_system_edits: created, is_snippet: true });
    a
}

#[test]
fn labels_share_a_line_among_neighbours_of_one_group() {
    let assists = vec![
        assist("Generate a getter method", Some("Generate getter/setter")),
        assist("Generate a setter method", Some("Generate getter/setter")),
        assist("Add `#[derive]`", None),
        assist("Generate a mut getter method", Some("Generate getter/setter")),
    ];
    assert_eq!(labels(&assists), "Generate getter/setter\nAdd `#[derive]`\nGenerate getter/setter\n");
}

#[test]
fn labels_of_the_extract_assists() {
    let assists =
        vec![assist("Extract into variable", None), assist("Extract into function", None)];
    assert_eq!(labels(&assists), "Extract into variable\nExtract into function\n");
}

#[test]
fn the_last_assist_is_chosen_unless_a_label_is_given() {
    let assists = vec![
        assist("Extract into variable", None),
        assist("Extract into function", None),
        assist("Extract into variable", None),
    ];
    assert_eq!(chosen_assist(&assists, None), Some(2));
    assert_eq!(chosen_assist(&assists, Some("Extract into variable")), Some(0));
    assert_eq!(chosen_assist(&assists, Some("Extract into function")), Some(1));
    assert_eq!(chosen_assist(&assists, Some("Replace with match")), None);
    assert_eq!(chosen_assist(&Vec::new(), None), None);
}

#[test]
fn one_edited_file_renders_without_a_header() {
    let change = SourceChange {
        source_file_edits: vec![file("/main.rs", "fn main() {}\n")],
        file_system_edits: Vec::new(),
        is_snippet: false,
    };
    assert_eq!(render(&change), "fn main() {}\n");
}

#[test]
fn several_files_render_each_after_its_header() {
    let change = SourceChange {
        source_file_edits: vec![file("/main.rs", "mod foo;\n"), file("/lib.rs", "pub fn f() {}\n")],
        file_system_edits: vec![file("/foo.rs", "fn g() {}\n")],
        is_snippet: false,
    };
    assert_eq!(
        render(&change),
        "//- /main.rs\nmod foo;\n//- /lib.rs\npub fn f() {}\n//- /foo.rs\nfn g() {}\n"
    );
    let created_only = SourceChange {
        source_file_edits: vec![file("/main.rs", "mod foo;\n")],
        file_system_edits: vec![file("/foo.rs", "")],
        is_snippet: false,
    };
    assert_eq!(render(&created_only), "//- /main.rs\nmod foo;\n//- /foo.rs\n");
}

#[test]
fn check_assist_compares_the_rendered_edits() {
    let offered = vec![
        assist("Extract into variable", None),
        resolved("Extract into function", vec![file("/main.rs", "fn f() { g() }")], Vec::new()),
    ];
    assert_eq!(check_assist(&offered, "fn f() { 1 }", "fn f() { g() }"), Ok(()));
    assert_eq!(
        check_assist(&offered, "fn f() { 1 }", "fn f() { h() }"),
        Err(CheckFailure::TextMismatch)
    );
    assert_eq!(
        check_assist_by_label(&offered, "fn f() { 1 }", "fn f() { g() }", "Extract into function"),
        Ok(())
    );
    assert_eq!(
        check_assist_by_label(&offered, "fn f() { 1 }", "fn f() { g() }", "Extract into variable"),
        Err(CheckFailure::NoSourceChange)
    );
    assert_eq!(
        check_assist_by_label(&offered, "fn f() { 1 }", "fn f() { g() }", "Inline"),
        Err(CheckFailure::NotApplicable)
    );
    assert_eq!(check_assist(&Vec::new(), "", ""), Err(CheckFailure::NotApplicable));
    let no_edits = vec![resolved("Move", Vec::new(), vec![file("/foo.rs", "")])];
    assert_eq!(check_assist(&no_edits, "", "//- /foo.rs\n"), Err(CheckFailure::NoFileEdits));
}

#[test]
fn unresolved_fails_on_a_source_change() {
    let offered = vec![resolved("Extract into function", vec![file("/main.rs", "")], Vec::new())];
    assert_eq!(check_assist_unresolved(&offered), Err(CheckFailure::Resolved));
    assert_eq!(
        check(&offered, "", &ExpectedResult::NotApplicable, None),
        Err(CheckFailure::Applicable)
    );
}

#[test]
fn target_must_lie_on_character_boundaries() {
    let mut a = assist("Extract into variable", None);
    a.target = TextRange { start: 5, end: 7 };
    let text = "let \u{e9}t\u{e9} = 1;";
    assert_eq!(check_assist_target(&vec![a.clone()], text, "t"), Err(CheckFailure::TargetOutOfText));
    a.target = TextRange { start: 4, end: 9 };
    assert_eq!(check_assist_target(&vec![a.clone()], text, "\u{e9}t\u{e9}"), Ok(()));
    a.target = TextRange { start: 7, end: 6 };
    assert_eq!(check_assist_target(&vec![a], text, ""), Err(CheckFailure::TargetOutOfText));
}

#[test]
fn doc_test_applies_the_edit_of_the_file() {
    let offered = vec![
        assist("Extract into variable", None),
        resolved(
            "Extract into function",
            vec![file("/lib.rs", "other"), file("/main.rs", "fn f() { g() }")],
            Vec::new(),
        ),
        resolved("Touch another file", vec![file("/lib.rs", "other")], Vec::new()),
    ];
    let before = "fn f() { 1 }";
    assert_eq!(
        check_doc_test(&offered, "extract_into_function", "/main.rs", before, "fn f() { g() }"),
        Ok(())
    );
    assert_eq!(
        check_doc_test(&offered, "extract_into_function", "/main.rs", before, before),
        Err(CheckFailure::TextMismatch)
    );
    assert_eq!(
        check_doc_test(&offered, "touch_another_file", "/main.rs", before, before),
        Ok(())
    );
    assert_eq!(
        check_doc_test(&offered, "extract_into_variable", "/main.rs", before, before),
        Err(CheckFailure::NoSourceChange)
    );
    assert_eq!(
        check_doc_test(&offered, "inline", "/main.rs", before, before),
        Err(CheckFailure::NotApplicable)
    );
}

// The assists offered at `5` in `if let 2..6 = 5`, as the listing is held
// against them below: all of them, those that refactor, those that
// extract, and the quick fixes.

fn offered_on_a_literal() -> Vec<Assist> {
    vec![
        assist("Convert integer base", None),
        assist("Extract into variable", None),
        assist("Extract into function", None),
        assist("Replace with match", None),
    ]
}

#[test]
fn assist_order_if_expr() {
    let assists = offered_on_a_literal();
    let expected = labels(&assists);
    assert_eq!(
        expected,
        "Convert integer base\nExtract into variable\nExtract into function\nReplace with match\n"
    );
}

#[test]
fn assist_filter_works() {
    {
        let assists = offered_on_a_literal();
        let expected = labels(&assists);
        assert_eq!(
            expected,
            "Convert integer base\nExtract into variable\nExtract into function\nReplace with match\n"
        );
    }
    {
        let assists: Vec<Assist> = offered_on_a_literal()
            .into_iter()
            .filter(|assist| assist.label.starts_with("Extract"))
            .collect();
        let expected = labels(&assists);
        assert_eq!(expected, "Extract into variable\nExtract into function\n");
    }
    {
        let assists: Vec<Assist> = Vec::new();
        let expected = labels(&assists);
        assert_eq!(expected, "");
    }
}
