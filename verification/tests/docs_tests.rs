use vibe_kanban::docs::{
    DocVerdict, ScannedDoc, admit_doc, build_docs_context, sorted_by_priority,
    supported_extension,
};

#[test]
fn test_priority_calculation() {
    assert!(ScannedDoc::calculate_priority("requirements.md") > 0);
    assert!(ScannedDoc::calculate_priority("design.md") > 0);
    assert!(ScannedDoc::calculate_priority("random.md") == 0);

    // Requirements should have higher priority than design
    assert!(
        ScannedDoc::calculate_priority("requirements.md")
            > ScannedDoc::calculate_priority("design.md")
    );
}

#[test]
fn test_build_docs_context_empty() {
    let docs: Vec<ScannedDoc> = vec![];
    assert!(build_docs_context(&docs).is_none());
}

#[test]
fn test_build_docs_context_with_docs() {
    let docs = vec![ScannedDoc::new(
        "requirements.md".to_string(),
        "# Requirements\n\nTest content".to_string(),
    )];

    let context = build_docs_context(&docs).unwrap();
    assert!(context.contains("Project Documentation"));
    assert!(context.contains("docs/requirements.md"));
    assert!(context.contains("Test content"));
}

#[test]
fn priority_is_case_insensitive_and_ranked() {
    assert_eq!(ScannedDoc::calculate_priority("REQUIREMENTS.md"), 7);
    assert_eq!(ScannedDoc::calculate_priority("product-prd.txt"), 6);
    assert_eq!(ScannedDoc::calculate_priority("spec.rst"), 5);
    assert_eq!(ScannedDoc::calculate_priority("Design/overview.md"), 4);
    assert_eq!(ScannedDoc::calculate_priority("architecture.md"), 3);
    assert_eq!(ScannedDoc::calculate_priority("api.md"), 2);
    assert_eq!(ScannedDoc::calculate_priority("ReadMe.md"), 1);
    assert_eq!(ScannedDoc::calculate_priority("notes.md"), 0);
}

#[test]
fn build_docs_context_renders_sections_in_order() {
    let docs = vec![
        ScannedDoc::new("a.md".to_string(), "alpha".to_string()),
        ScannedDoc::new("b.md".to_string(), "beta".to_string()),
    ];
    let context = build_docs_context(&docs).unwrap();
    assert_eq!(
        context,
        "# Project Documentation\n\n\
         The following documentation files are available in the docs/ folder. \
         Please review them for project context, requirements, and design decisions.\n\n\
         ## docs/a.md\n\nalpha\n\n---\n\n\
         ## docs/b.md\n\nbeta\n\n---\n\n"
    );
}

#[test]
fn sorting_is_by_priority_descending_and_stable() {
    let docs = vec![
        ScannedDoc::new("zebra.md".to_string(), "z".to_string()),
        ScannedDoc::new("design.md".to_string(), "d".to_string()),
        ScannedDoc::new("requirements.md".to_string(), "r".to_string()),
        ScannedDoc::new("alpha.md".to_string(), "a".to_string()),
        ScannedDoc::new("design2.md".to_string(), "d2".to_string()),
    ];
    let sorted = sorted_by_priority(&docs);
    let order: Vec<&str> = sorted.iter().map(|d| d.relative_path.as_str()).collect();
    assert_eq!(
        order,
        vec!["requirements.md", "design.md", "design2.md", "zebra.md", "alpha.md"]
    );
}

#[test]
fn extensions_are_filtered_to_supported_documents() {
    assert!(supported_extension("md"));
    assert!(supported_extension("txt"));
    assert!(supported_extension("rst"));
    assert!(!supported_extension("rs"));
    assert!(!supported_extension(""));
}

#[test]
fn admission_respects_size_budgets() {
    assert_eq!(admit_doc(Some("md"), 10, 100000), DocVerdict::Stop);
    assert_eq!(admit_doc(None, 10, 0), DocVerdict::SkipExtension);
    assert_eq!(admit_doc(Some("exe"), 10, 0), DocVerdict::SkipExtension);
    assert_eq!(admit_doc(Some("md"), 50001, 0), DocVerdict::SkipTooLarge);
    assert_eq!(admit_doc(Some("md"), 50000, 99999), DocVerdict::SkipOverBudget);
    assert_eq!(admit_doc(Some("md"), 50000, 0), DocVerdict::Accept);
}
