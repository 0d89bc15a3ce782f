use chiliseed::exclusion::{
    anchor_rule, anchored_rules, builtin_rules, collect_rule_lines, exclusion_rules, line_is_blank,
    lists_directory, normalize_rule, widen_rule, ExclusionMatcher,
};

fn lines(items: &[&str]) -> Vec<String> {
    items.iter().map(|s| s.to_string()).collect()
}

#[test]
fn builtin_rules_are_the_four_fixed_ones() {
    assert_eq!(builtin_rules(), lines(&["*.pem", ".git/*", "_build/*", "*.tar.gz"]));
}

#[test]
fn blank_lines_are_recognised() {
    assert!(line_is_blank(""));
    assert!(line_is_blank("   "));
    assert!(line_is_blank("\t\r\n"));
    assert!(!line_is_blank(" a "));
    assert!(!line_is_blank("#"));
}

#[test]
fn anchor_rule_puts_dot_slash_in_front() {
    assert_eq!(anchor_rule("target"), "./target");
    assert_eq!(anchor_rule("/target"), "./target");
    assert_eq!(anchor_rule("./target"), "./target");
    assert_eq!(anchor_rule("  *.pyc \n"), "./*.pyc");
    assert_eq!(anchor_rule("."), "./.");
    assert_eq!(anchor_rule("/"), "./");
    assert_eq!(anchor_rule(""), "./");
    assert_eq!(anchor_rule(".git/*"), "./.git/*");
    assert_eq!(anchor_rule("../up"), "./../up");
}

#[test]
fn widen_rule_appends_slash_star() {
    assert_eq!(widen_rule("./target"), "./target/*");
    assert_eq!(widen_rule("./a/"), "./a//*");
}

#[test]
fn lists_directory_compares_whole_paths() {
    let dirs = lines(&["./target", "./node_modules"]);
    assert!(lists_directory(&dirs, &"./target".to_string()));
    assert!(lists_directory(&dirs, &"./node_modules".to_string()));
    assert!(!lists_directory(&dirs, &"./targe".to_string()));
    assert!(!lists_directory(&dirs, &"target".to_string()));
    assert!(!lists_directory(&Vec::new(), &"./target".to_string()));
}

#[test]
fn normalize_rule_widens_directories_only() {
    let dirs = lines(&["./target"]);
    assert_eq!(normalize_rule("target", &dirs), "./target/*");
    assert_eq!(normalize_rule("/target", &dirs), "./target/*");
    assert_eq!(normalize_rule(" ./target ", &dirs), "./target/*");
    assert_eq!(normalize_rule("targets", &dirs), "./targets");
    assert_eq!(normalize_rule("*.log", &dirs), "./*.log");
}

#[test]
fn rule_lines_drop_blank_lines_and_end_with_builtins() {
    let raw = lines(&["target", "", "   ", " *.log", "\t"]);
    assert_eq!(
        collect_rule_lines(&raw),
        lines(&["target", " *.log", "*.pem", ".git/*", "_build/*", "*.tar.gz"])
    );
    assert_eq!(collect_rule_lines(&Vec::new()), builtin_rules());
}

#[test]
fn anchored_rules_are_the_paths_to_probe() {
    let raw = lines(&["target", "/dist", "./x"]);
    assert_eq!(
        anchored_rules(&raw),
        lines(&["./target", "./dist", "./x", "./*.pem", "./.git/*", "./_build/*", "./*.tar.gz"])
    );
}

#[test]
fn compiled_rules_start_with_dot_slash_and_directories_end_with_slash_star() {
    let raw = lines(&["target", "/dist", "./docs", "*.log", "  ", "a/b", "[ab].txt"]);
    let dirs = lines(&["./target", "./docs", "./a/b"]);
    let rules = exclusion_rules(&raw, &dirs);
    let anchored = anchored_rules(&raw);
    assert_eq!(rules.len(), anchored.len());
    for (rule, probe) in rules.iter().zip(anchored.iter()) {
        assert!(rule.starts_with("./"), "{}", rule);
        if dirs.contains(probe) {
            assert!(rule.ends_with("/*"), "{}", rule);
            assert_eq!(rule, &format!("{}/*", probe));
        } else {
            assert_eq!(rule, probe);
        }
    }
    assert_eq!(
        rules,
        lines(&[
            "./target/*",
            "./dist",
            "./docs/*",
            "./*.log",
            "./a/b/*",
            "./[ab].txt",
            "./*.pem",
            "./.git/*",
            "./_build/*",
            "./*.tar.gz"
        ])
    );
}

#[test]
fn default_rules_with_no_lines() {
    let rules = exclusion_rules(&Vec::new(), &Vec::new());
    assert_eq!(rules, lines(&["./*.pem", "./.git/*", "./_build/*", "./*.tar.gz"]));
}

#[test]
fn matcher_holds_the_compiled_rules() {
    let raw = lines(&["target"]);
    let dirs = lines(&["./target"]);
    let matcher = ExclusionMatcher::compile(&raw, &dirs).unwrap();
    assert_eq!(
        matcher.rules(),
        &lines(&["./target/*", "./*.pem", "./.git/*", "./_build/*", "./*.tar.gz"])
    );
}

#[test]
fn matcher_matches_when_any_rule_matches() {
    let matcher = ExclusionMatcher::compile(&Vec::new(), &Vec::new()).unwrap();
    assert!(matcher.matches("./secret.pem"));
    assert!(matcher.matches("./.git/config"));
    assert!(matcher.matches("./_build/x"));
    assert!(matcher.matches("./old.tar.gz"));
    assert!(matcher.matches("./keys/deep/id.pem"));
    assert!(!matcher.matches("./a.txt"));
    assert!(!matcher.matches("./src/main.rs"));
    assert!(!matcher.matches("secret.pem"));
}

#[test]
fn matching_rules_gives_positions_in_ascending_order() {
    let rules = lines(&["./*.pem", "./keys/*", "./*.txt", "./keys/*.pem"]);
    let matcher = ExclusionMatcher::from_rules(rules).unwrap();
    assert_eq!(matcher.matching_rules("./keys/id.pem"), vec![0, 1, 3]);
    assert_eq!(matcher.matching_rules("./notes.txt"), vec![2]);
    assert_eq!(matcher.matching_rules("./main.rs"), Vec::<usize>::new());
    assert!(matcher.matches("./keys/id.pem"));
    assert!(!matcher.matches("./main.rs"));
}

#[test]
fn empty_rule_list_matches_nothing() {
    let matcher = ExclusionMatcher::from_rules(Vec::new()).unwrap();
    assert!(matcher.rules().is_empty());
    assert!(!matcher.matches("./a.txt"));
    assert_eq!(matcher.matching_rules("./a.txt"), Vec::<usize>::new());
}

#[test]
fn malformed_glob_is_a_pattern_compile_error() {
    let raw = lines(&["*.log", "{a,b", "[z-a]"]);
    let error = match ExclusionMatcher::compile(&raw, &Vec::new()) {
        Ok(_) => panic!("a malformed glob compiled"),
        Err(error) => error,
    };
    assert_eq!(error.rule, Some("./{a,b".to_string()));
    assert!(!error.message.is_empty());
}

#[test]
fn from_rules_names_the_first_rejected_rule() {
    let error = match ExclusionMatcher::from_rules(lines(&["./ok", "./[z-a]", "./{a"])) {
        Ok(_) => panic!("a malformed glob compiled"),
        Err(error) => error,
    };
    assert_eq!(error.rule, Some("./[z-a]".to_string()));
    assert!(error.message.contains("range"));
}
