use chiliseed::exclusion::ExclusionMatcher;
use chiliseed::package::{build_package_name, new_build_package_name, ARCHIVE_ROOT};
use chiliseed::staging::{select_files, stage, stage_plan, staged_path, StageOp, WalkEntry, BUILD_LOCATION};

fn file(path: &str) -> WalkEntry {
    WalkEntry { path: path.to_string(), is_dir: false }
}

fn dir(path: &str) -> WalkEntry {
    WalkEntry { path: path.to_string(), is_dir: true }
}

fn default_matcher() -> ExclusionMatcher {
    ExclusionMatcher::compile(&Vec::new(), &Vec::new()).unwrap()
}

#[test]
fn default_exclusions_keep_only_the_plain_file() {
    let tree = vec![
        dir("."),
        file("./a.txt"),
        file("./secret.pem"),
        dir("./.git"),
        file("./.git/config"),
        dir("./_build"),
        file("./_build/x"),
        file("./old.tar.gz"),
    ];
    assert_eq!(stage(&default_matcher(), &tree), vec!["./a.txt".to_string()]);
}

#[test]
fn manifest_keeps_the_order_of_the_walk_and_skips_directories() {
    let matcher =
        ExclusionMatcher::compile(&vec!["target".to_string()], &vec!["./target".to_string()])
            .unwrap();
    let tree = vec![
        dir("."),
        file("./Dockerfile"),
        dir("./src"),
        file("./src/main.rs"),
        dir("./target"),
        file("./target/debug.bin"),
        file("./src/lib.rs"),
        dir("./empty"),
    ];
    assert_eq!(
        stage(&matcher, &tree),
        vec!["./Dockerfile".to_string(), "./src/main.rs".to_string(), "./src/lib.rs".to_string()]
    );
}

#[test]
fn staging_twice_gives_the_same_manifest() {
    let matcher = default_matcher();
    let tree = vec![file("./a.txt"), file("./b.pem"), file("./c/d.txt")];
    let first = stage(&matcher, &tree);
    let second = stage(&matcher, &tree);
    assert_eq!(first, second);
    assert_eq!(stage_plan(&first), stage_plan(&second));
}

#[test]
fn a_file_deleted_between_runs_is_not_staged_again() {
    let matcher = default_matcher();
    let before = vec![file("./a.txt"), file("./gone.txt")];
    let after = vec![file("./a.txt")];
    let first = stage(&matcher, &before);
    let second = stage(&matcher, &after);
    assert_eq!(first, vec!["./a.txt".to_string(), "./gone.txt".to_string()]);
    assert_eq!(second, vec!["./a.txt".to_string()]);
    let plan = stage_plan(&second);
    assert_eq!(plan[0], StageOp::Reset);
    for op in plan.iter() {
        if let StageOp::Copy { from, to } = op {
            assert_ne!(from, "./gone.txt");
            assert_ne!(to, "_build/./gone.txt");
        }
    }
}

#[test]
fn select_files_follows_the_flags() {
    let tree = vec![file("./a"), dir("./d"), file("./b"), file("./c")];
    assert_eq!(
        select_files(&tree, &vec![false, false, true, false]),
        vec!["./a".to_string(), "./c".to_string()]
    );
    assert_eq!(select_files(&tree, &vec![true, true, true, true]), Vec::<String>::new());
    assert_eq!(select_files(&Vec::new(), &Vec::new()), Vec::<String>::new());
}

#[test]
fn select_files_drops_entries_without_a_flag() {
    let tree = vec![file("./a"), file("./b"), file("./c")];
    assert_eq!(select_files(&tree, &vec![false]), vec!["./a".to_string()]);
    assert_eq!(select_files(&tree, &Vec::new()), Vec::<String>::new());
    assert_eq!(
        select_files(&tree, &vec![false, true, false, false, false]),
        vec!["./a".to_string(), "./c".to_string()]
    );
}

#[test]
fn staged_path_lies_under_the_staging_directory() {
    assert_eq!(BUILD_LOCATION, "_build");
    assert_eq!(staged_path("./a.txt"), "_build/./a.txt");
    assert_eq!(staged_path("./src/main.rs"), "_build/./src/main.rs");
    assert_eq!(staged_path(""), "_build/");
}

#[test]
fn stage_plan_resets_then_copies_each_file() {
    let manifest = vec!["./a.txt".to_string(), "./src/main.rs".to_string()];
    assert_eq!(
        stage_plan(&manifest),
        vec![
            StageOp::Reset,
            StageOp::Copy { from: "./a.txt".to_string(), to: "_build/./a.txt".to_string() },
            StageOp::Copy {
                from: "./src/main.rs".to_string(),
                to: "_build/./src/main.rs".to_string()
            },
        ]
    );
    assert_eq!(stage_plan(&Vec::new()), vec![StageOp::Reset]);
}

#[test]
fn package_name_wraps_the_token() {
    assert_eq!(ARCHIVE_ROOT, "build");
    assert_eq!(
        build_package_name("67e5504410b1426f9247bb680e5fe0c8"),
        "build_67e5504410b1426f9247bb680e5fe0c8.tar.gz"
    );
    assert_eq!(build_package_name(""), "build_.tar.gz");
}

#[test]
fn fresh_package_names_hold_a_32_digit_token() {
    let name = new_build_package_name();
    assert!(name.starts_with("build_"));
    assert!(name.ends_with(".tar.gz"));
    let token = &name["build_".len()..name.len() - ".tar.gz".len()];
    assert_eq!(token.len(), 32);
    assert!(token.chars().all(|c| c.is_ascii_digit() || ('a'..='f').contains(&c)));
    assert_ne!(name, new_build_package_name());
}

#[test]
fn a_fresh_package_is_excluded_from_later_staging() {
    let name = format!("./{}", new_build_package_name());
    assert!(default_matcher().matches(&name));
}
