use dtriage::config::CategorizationRule;
use dtriage::triage::Categorizer;

fn rule(name: &str, exts: &[&str], priority: u32) -> CategorizationRule {
    CategorizationRule {
        name: name.to_string(),
        extensions: exts.iter().map(|e| e.to_string()).collect(),
        destination: name.to_string(),
        naming_pattern: None,
        priority,
    }
}

#[test]
fn test_categorizer_matches_pdf() {
    let rule = CategorizationRule {
        name: "Documents".to_string(),
        extensions: vec!["pdf".into()],
        destination: "Documents".to_string(),
        naming_pattern: None,
        priority: 10,
    };

    let categorizer = Categorizer::new(vec![rule]);
    let path = "/downloads/test.pdf";

    let result = categorizer.categorize(path);
    assert!(result.is_some());
    assert_eq!(result.unwrap().name, "Documents");
}

#[test]
fn test_categorizer_case_insensitive() {
    let rule = CategorizationRule {
        name: "Documents".to_string(),
        extensions: vec!["pdf".into()],
        destination: "Documents".to_string(),
        naming_pattern: None,
        priority: 10,
    };

    let categorizer = Categorizer::new(vec![rule]);
    let path = "/downloads/test.PDF";

    let result = categorizer.categorize(path);
    assert!(result.is_some());
}

#[test]
fn test_categorizer_no_match() {
    let rule = CategorizationRule {
        name: "Documents".to_string(),
        extensions: vec!["pdf".into()],
        destination: "Documents".to_string(),
        naming_pattern: None,
        priority: 10,
    };

    let categorizer = Categorizer::new(vec![rule]);
    let path = "/downloads/test.xyz";

    let result = categorizer.categorize(path);
    assert!(result.is_none());
}

#[test]
fn test_categorizer_priority_order() {
    let high_priority = CategorizationRule {
        name: "High".to_string(),
        extensions: vec!["exe".into()],
        destination: "High".to_string(),
        naming_pattern: None,
        priority: 20,
    };

    let low_priority = CategorizationRule {
        name: "Low".to_string(),
        extensions: vec!["exe".into()],
        destination: "Low".to_string(),
        naming_pattern: None,
        priority: 10,
    };

    let categorizer = Categorizer::new(vec![low_priority, high_priority]);
    let path = "/downloads/test.exe";

    let result = categorizer.categorize(path);
    assert!(result.is_some());
    assert_eq!(result.unwrap().name, "High");
}

#[test]
fn test_categorizer_detects_pdf() {
    let rules = CategorizationRule::defaults();
    let categorizer = Categorizer::new(rules);

    let result = categorizer.categorize("/tmp/triage-test/downloads/test.pdf");

    assert!(result.is_some());
    assert_eq!(result.unwrap().name, "Documents");
}

#[test]
fn test_categorizer_detects_image() {
    let rules = CategorizationRule::defaults();
    let categorizer = Categorizer::new(rules);

    let result = categorizer.categorize("/tmp/triage-test/photo.jpg");

    assert!(result.is_some());
    assert_eq!(result.unwrap().name, "Images");
}

#[test]
fn equal_priorities_keep_given_order() {
    let categorizer = Categorizer::new(vec![
        rule("First", &["bin"], 5),
        rule("Second", &["bin"], 5),
        rule("Top", &["txt"], 9),
    ]);
    assert_eq!(categorizer.categorize("/d/x.bin").unwrap().name, "First");
    assert_eq!(categorizer.categorize("/d/x.txt").unwrap().name, "Top");
}

#[test]
fn highest_priority_match_wins_whatever_the_order() {
    let categorizer = Categorizer::new(vec![
        rule("A", &["dat"], 1),
        rule("B", &["dat"], 3),
        rule("C", &["dat"], 2),
        rule("D", &["dat"], 3),
    ]);
    assert_eq!(categorizer.categorize("/d/x.dat").unwrap().name, "B");
}

#[test]
fn files_without_extension_match_nothing() {
    let categorizer = Categorizer::new(CategorizationRule::defaults());
    assert!(categorizer.categorize("/downloads/README").is_none());
    assert!(categorizer.categorize("/downloads/.bashrc").is_none());
    assert!(categorizer.categorize("/downloads/").is_none());
}

#[test]
fn extension_is_the_last_one() {
    let categorizer = Categorizer::new(CategorizationRule::defaults());
    assert_eq!(categorizer.categorize("/downloads/a.tar.gz").unwrap().name, "Archives");
    assert_eq!(categorizer.categorize("/downloads/setup.EXE").unwrap().name, "Installers");
}

#[test]
fn rule_matches_by_extension_case_aside() {
    let r = rule("Docs", &["PdF", "txt"], 1);
    assert!(r.matches("/x/y.pdf"));
    assert!(r.matches("/x/y.TXT"));
    assert!(!r.matches("/x/y.doc"));
    assert!(!r.matches("/x/pdf"));
    assert!(r.matches_extension(Some("PDF")));
    assert!(!r.matches_extension(None));
}

#[test]
fn empty_rule_list_matches_nothing() {
    let categorizer = Categorizer::new(Vec::new());
    assert!(categorizer.categorize("/x/y.pdf").is_none());
}

#[test]
fn default_rules_table() {
    let rules = CategorizationRule::defaults();
    let names: Vec<&str> = rules.iter().map(|r| r.name.as_str()).collect();
    assert_eq!(
        names,
        vec!["Documents", "Images", "Videos", "Music", "Archives", "Installers", "Code"]
    );
    let dests: Vec<&str> = rules.iter().map(|r| r.destination.as_str()).collect();
    assert_eq!(
        dests,
        vec!["Documents", "Pictures", "Videos", "Music", "Archives", "Installers", "Code"]
    );
    let prios: Vec<u32> = rules.iter().map(|r| r.priority).collect();
    assert_eq!(prios, vec![10, 10, 10, 10, 10, 20, 10]);
    assert_eq!(rules[0].extensions, vec!["pdf", "doc", "docx", "txt", "rtf"]);
    assert_eq!(rules[5].extensions, vec!["exe", "msi", "dmg", "pkg"]);
    assert_eq!(
        rules[6].extensions,
        vec!["js", "ts", "py", "rs", "go", "java", "cpp", "c", "h", "cs", "php", "rb", "sh"]
    );
    assert!(rules.iter().all(|r| r.naming_pattern.is_none()));
}

#[test]
fn default_rules_route_each_listed_extension() {
    let categorizer = Categorizer::new(CategorizationRule::defaults());
    for (file, expected) in [
        ("a.docx", "Documents"),
        ("a.webp", "Images"),
        ("a.mkv", "Videos"),
        ("a.flac", "Music"),
        ("a.7z", "Archives"),
        ("a.dmg", "Installers"),
        ("a.sh", "Code"),
        ("a.rs", "Code"),
    ] {
        let path = format!("/downloads/{}", file);
        assert_eq!(categorizer.categorize(&path).unwrap().name, expected, "{}", file);
    }
}

#[test]
fn bash_files_are_not_code_by_default() {
    let categorizer = Categorizer::new(CategorizationRule::defaults());
    assert!(categorizer.categorize("/downloads/install.bash").is_none());
}
