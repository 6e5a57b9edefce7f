use ia_get_core::error::IaGetError;
use ia_get_core::plan::{
    is_private, joined_or_base, no_downloads_error, plan_downloads, plan_with_urls, plural_suffix,
    DownloadPlan, ListedFile,
};

fn file(name: &str, private: Option<&str>, sanitized_name: &str) -> ListedFile {
    ListedFile {
        name: name.to_string(),
        private: private.map(|mark| mark.to_string()),
        md5: Some(format!("md5 of {}", name)),
        sanitized_name: sanitized_name.to_string(),
        was_modified: name != sanitized_name,
    }
}

fn listed() -> Vec<ListedFile> {
    vec![
        file("a.txt", None, "a.txt"),
        file("b:c.txt", Some(" TRUE\n"), "b_c.txt"),
        file("d?e", Some("false"), "d_e"),
    ]
}

#[test]
fn private_marks() {
    for mark in ["true", "True", "\u{a0}tRuE\t"] {
        assert!(is_private(&file("f", Some(mark), "f")));
    }
    for mark in ["", "false", "yes", "tru", "true true", "\u{442}rue"] {
        assert!(!is_private(&file("f", Some(mark), "f")));
    }
    assert!(!is_private(&file("f", None, "f")));
}

#[test]
fn open_session_leaves_private_files_out() {
    let urls = vec!["u0".to_string(), "u1".to_string(), "u2".to_string()];
    assert_eq!(
        plan_with_urls(listed(), urls, false),
        DownloadPlan {
            downloads: vec![
                ("u0".to_string(), "a.txt".to_string(), Some("md5 of a.txt".to_string())),
                ("u2".to_string(), "d_e".to_string(), Some("md5 of d?e".to_string())),
            ],
            sanitized_files: vec![("d?e".to_string(), "d_e".to_string())],
            private_count: 1,
        }
    );
}

#[test]
fn authenticated_session_downloads_every_file() {
    let base = "https://archive.org/download/item1/item1_files.xml";
    let plan = plan_downloads(listed(), base, true);
    assert_eq!(plan.private_count, 0);
    assert_eq!(plan.downloads.len(), 3);
    assert_eq!(plan.downloads[0].0, "https://archive.org/download/item1/a.txt");
    // Before the colon stands what reads as a scheme.
    assert_eq!(plan.downloads[1].0, "b:c.txt");
    assert_eq!(plan.downloads[2].0, "https://archive.org/download/item1/d?e");
    assert_eq!(plan.sanitized_files.len(), 2);
}

#[test]
fn name_that_does_not_join_gets_the_base_url() {
    let base = "https://archive.org/download/item1/item1_files.xml";
    let plan = plan_downloads(vec![file("http://[", None, "http___[")], base, false);
    assert_eq!(plan.downloads[0].0, base);
    assert_eq!(joined_or_base("b", None), "b");
    assert_eq!(joined_or_base("b", Some("u".to_string())), "u");
}

#[test]
fn reasons_for_an_empty_plan() {
    let mut plan = plan_with_urls(Vec::new(), Vec::new(), false);
    assert_eq!(
        no_downloads_error(&plan),
        IaGetError::Network("No downloadable files found in archive metadata.".to_string())
    );
    plan.private_count = 2;
    assert_eq!(
        no_downloads_error(&plan).message(),
        "No downloadable files found. This archive may only contain private or restricted files. Try again with --username and --password (or --password-stdin)."
    );
}

#[test]
fn plural_suffixes() {
    assert_eq!(plural_suffix(0), "s");
    assert_eq!(plural_suffix(1), "");
    assert_eq!(plural_suffix(2), "s");
}
