use ac::catalog::{change_types, flat_change_types, SLUG_WIDTH};

#[test]
fn catalog_has_ten_distinct_slugs_in_order() {
    let slugs: Vec<&str> = change_types().iter().map(|t| t.slug).collect();
    assert_eq!(
        slugs,
        vec!["fix", "feat", "docs", "style", "refactor", "perf", "test", "build", "ci", "chore"]
    );
    for (i, a) in slugs.iter().enumerate() {
        for b in &slugs[i + 1..] {
            assert_ne!(a, b);
        }
    }
}

#[test]
fn labels_hold_one_separator_after_the_slug() {
    let types = change_types();
    let labels = flat_change_types();
    assert_eq!(labels.len(), 10);
    for (t, l) in types.iter().zip(labels.iter()) {
        assert_eq!(l.matches(':').count(), 1);
        assert_eq!(l.find(':'), Some(t.slug.len()));
        assert!(l.ends_with(t.desc));
    }
}

#[test]
fn descriptions_start_in_one_column() {
    let types = change_types();
    let labels = flat_change_types();
    for (t, l) in types.iter().zip(labels.iter()) {
        assert_eq!(l.len(), SLUG_WIDTH + 1 + t.desc.len());
    }
    assert_eq!(labels[0], "fix:        Fix a bug. \"PATCH\" in SemVer");
    assert_eq!(labels[4], "refactor:   Doesn't fix a bug or add a feature");
}
