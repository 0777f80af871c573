use rtdlib::apipe::{Apipe, ClassDoc, DocBlock, DocParagraph, DocRow};

fn row(kind: &str, left: &str, right: &str, desc: &str) -> DocRow {
    DocRow {
        kind: Some(kind.to_string()),
        left: left.to_string(),
        right: right.to_string(),
        desc: desc.to_string(),
    }
}

fn doc_with_rows(rows: Vec<DocRow>) -> ClassDoc {
    ClassDoc {
        brief: Some("A record.".to_string()),
        inherit_heads: Vec::new(),
        paragraphs: Vec::new(),
        blocks: vec![DocBlock { heading: Some("Public Fields".to_string()), rows }],
    }
}

#[test]
fn field_emits_only_after_its_description_row() {
    // the first member-item row is overwritten before any description row
    // arrives, so only the second field is emitted
    let doc = doc_with_rows(vec![
        row("memitem:a1", "std::int32_t", "lost_", ""),
        row("memitem:a2", "std::int64_t", "kept_", ""),
        row("memdesc:a2", "", "", "The kept field."),
    ]);
    let a = Apipe::from_docs(vec![("Rec".to_string(), doc)]);
    let fields = a.fields("Rec").expect("fields");
    assert_eq!(fields.len(), 1);
    assert_eq!(fields[0].name, "kept");
    assert_eq!(fields[0].class, "i64");
    assert_eq!(fields[0].description, "The kept field.");
}

#[test]
fn orphan_description_row_emits_the_empty_staged_field() {
    let doc = doc_with_rows(vec![row("memdesc:a1", "", "", "No declaration came first.")]);
    let a = Apipe::from_docs(vec![("Rec".to_string(), doc)]);
    let fields = a.fields("Rec").expect("fields");
    assert_eq!(fields.len(), 1);
    assert_eq!(fields[0].name, "");
    assert_eq!(fields[0].class, "");
    assert_eq!(fields[0].description, "No declaration came first.");
}

#[test]
fn heading_and_unclassified_rows_are_ignored() {
    let doc = doc_with_rows(vec![
        row("heading", "junk", "junk", "junk"),
        DocRow { kind: None, left: "x".to_string(), right: "y".to_string(), desc: "z".to_string() },
        row("separator", "", "", ""),
        row("memitem:a1", "bool", "flag_", ""),
        row("memdesc:a1", "", "", "A flag."),
    ]);
    let a = Apipe::from_docs(vec![("Rec".to_string(), doc)]);
    let fields = a.fields("Rec").expect("fields");
    assert_eq!(fields.len(), 1);
    assert_eq!(fields[0].name, "flag");
    assert_eq!(fields[0].class, "bool");
}

#[test]
fn later_document_wins_for_a_repeated_name() {
    let early = ClassDoc {
        brief: Some("Early text.".to_string()),
        inherit_heads: Vec::new(),
        paragraphs: Vec::new(),
        blocks: Vec::new(),
    };
    let late = ClassDoc {
        brief: Some("Late text.".to_string()),
        inherit_heads: Vec::new(),
        paragraphs: Vec::new(),
        blocks: Vec::new(),
    };
    let a = Apipe::from_docs(vec![("Twice".to_string(), early), ("twice".to_string(), late)]);
    assert_eq!(a.description("Twice").cloned(), Some("Late text.".to_string()));
}

#[test]
fn inherited_by_paragraph_must_lead() {
    let doc = ClassDoc {
        brief: None,
        inherit_heads: Vec::new(),
        paragraphs: vec![
            DocParagraph { text: "See also Foo.".to_string(), links: vec!["Foo".to_string()] },
            DocParagraph {
                text: "Inherited by childType.".to_string(),
                links: vec!["childType".to_string()],
            },
        ],
        blocks: Vec::new(),
    };
    let a = Apipe::from_docs(vec![("Base".to_string(), doc)]);
    assert_eq!(a.sub_classes("Base").expect("subs"), &vec!["ChildType".to_string()]);
}
