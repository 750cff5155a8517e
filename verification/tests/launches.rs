use gradlew_launcher::delegate::{conclude, Exit, Invocation, Outcome};
use gradlew_launcher::launcher::{Launch, Next, Search};
use gradlew_launcher::path::AbsPath;
use gradlew_launcher::platform::Platform;
use gradlew_launcher::tree::DirTree;

fn at(names: &[&str]) -> AbsPath {
    let mut path = AbsPath::root("/");
    for name in names {
        path = path.child(name);
    }
    path
}

fn tree(paths: &[&[&str]]) -> DirTree {
    DirTree { paths: paths.iter().map(|names| at(names)).collect() }
}

fn strings(items: &[&str]) -> Vec<String> {
    items.iter().map(|item| item.to_string()).collect()
}

fn kts_files() -> DirTree {
    tree(&[
        &["tmp", "kts_files"],
        &["tmp", "kts_files", "settings.gradle.kts"],
        &["tmp", "kts_files", "build.gradle.kts"],
        &["tmp", "kts_files", "gradlew"],
        &["tmp", "kts_files", "gradlew.bat"],
        &["tmp", "kts_files", "src"],
        &["tmp", "kts_files", "src", "main"],
        &["tmp", "kts_files", "src", "main", "java"],
    ])
}

fn groovy_files() -> DirTree {
    tree(&[
        &["tmp", "groovy_files"],
        &["tmp", "groovy_files", "settings.gradle"],
        &["tmp", "groovy_files", "build.gradle"],
        &["tmp", "groovy_files", "gradlew"],
        &["tmp", "groovy_files", "gradlew.bat"],
        &["tmp", "groovy_files", "src"],
        &["tmp", "groovy_files", "src", "main"],
        &["tmp", "groovy_files", "src", "main", "java"],
    ])
}

fn launch(tree: &DirTree, origin: &[&str], argv: &[&str]) -> Result<Launch, Exit> {
    Search::start(at(origin), Platform::Posix, strings(argv)).run_on(tree)
}

#[test]
fn kts_project_root_is_launched_from_itself() {
    let launch = launch(&kts_files(), &["tmp", "kts_files"], &["gw"]).unwrap();
    assert_eq!(launch.invocation.program, "/tmp/kts_files/gradlew");
    assert_eq!(launch.invocation.args, strings(&["--project-dir", "/tmp/kts_files"]));
    assert_eq!(launch.invocation.working_dir, "/tmp/kts_files");
    assert_eq!(launch.warning, None);
}

#[test]
fn groovy_project_root_is_launched_from_itself() {
    let launch = launch(&groovy_files(), &["tmp", "groovy_files"], &["gw"]).unwrap();
    assert_eq!(launch.invocation.program, "/tmp/groovy_files/gradlew");
    assert_eq!(launch.invocation.args, strings(&["--project-dir", "/tmp/groovy_files"]));
    assert_eq!(launch.invocation.working_dir, "/tmp/groovy_files");
}

#[test]
fn kts_project_is_launched_from_a_subdirectory() {
    let launch = launch(&kts_files(), &["tmp", "kts_files", "src", "main", "java"], &["gw"]).unwrap();
    assert_eq!(launch.invocation.program, "/tmp/kts_files/gradlew");
    assert_eq!(launch.invocation.args, strings(&["--project-dir", "/tmp/kts_files"]));
    assert_eq!(launch.invocation.working_dir, "/tmp/kts_files");
}

#[test]
fn groovy_project_is_launched_from_a_subdirectory() {
    let launch = launch(&groovy_files(), &["tmp", "groovy_files", "src", "main", "java"], &["gw"]).unwrap();
    assert_eq!(launch.invocation.program, "/tmp/groovy_files/gradlew");
    assert_eq!(launch.invocation.working_dir, "/tmp/groovy_files");
}

#[test]
fn project_with_sources_is_launched_from_its_java_directory() {
    let tree = tree(&[
        &["proj", "settings.gradle.kts"],
        &["proj", "gradlew"],
        &["proj", "src", "main", "java"],
    ]);
    let launch = launch(&tree, &["proj", "src", "main", "java"], &["gw"]).unwrap();
    assert_eq!(
        launch,
        Launch {
            invocation: Invocation {
                program: "/proj/gradlew".to_string(),
                args: strings(&["--project-dir", "/proj"]),
                working_dir: "/proj".to_string(),
            },
            announcement: "Executing /proj/gradlew --project-dir /proj from directory /proj".to_string(),
            warning: None,
        }
    );
    assert_eq!(conclude(&Outcome::Exited(Some(0))).code, 0);
}

#[test]
fn arguments_are_passed_to_the_delegate() {
    let launch = launch(&kts_files(), &["tmp", "kts_files"], &["gw", "tasks"]).unwrap();
    assert_eq!(launch.invocation.args.last().map(|arg| arg.as_str()), Some("tasks"));
    assert_eq!(launch.invocation.args, strings(&["--project-dir", "/tmp/kts_files", "tasks"]));
    assert!(launch.announcement.ends_with("tasks from directory /tmp/kts_files"));
}

#[test]
fn failure_of_the_delegate_is_passed_through() {
    let launch = launch(&kts_files(), &["tmp", "kts_files"], &["gw", "non-existent-task"]).unwrap();
    assert_eq!(
        launch.invocation.args,
        strings(&["--project-dir", "/tmp/kts_files", "non-existent-task"])
    );
    let exit = conclude(&Outcome::Exited(Some(1)));
    assert_ne!(exit.code, 0);
    assert_eq!(exit.code, 1);
}

#[test]
fn launch_without_a_settings_file_ends_with_code_one() {
    let tree = tree(&[
        &["home", "dev", "notes.txt"],
        &["home", "dev", "build.gradle"],
        &["home", "dev", "gradlew"],
    ]);
    let end = launch(&tree, &["home", "dev"], &["gw", "build"]);
    assert_eq!(
        end,
        Err(Exit {
            code: 1,
            diagnostic: Some("Did not find settings.gradle or settings.gradle.kts file!".to_string()),
        })
    );
}

#[test]
fn launch_in_an_empty_tree_ends_with_code_one() {
    let end = launch(&tree(&[]), &[], &["gw"]);
    assert_eq!(end.unwrap_err().code, 1);
}

#[test]
fn launch_without_a_wrapper_falls_back_on_the_system_installation() {
    let tree = tree(&[
        &["tests", "gradle_project", "settings.gradle"],
        &["tests", "gradle"],
    ]);
    let launch = launch(&tree, &["tests", "gradle_project"], &["gw"]).unwrap();
    assert_eq!(launch.invocation.program, "gradle");
    assert_eq!(launch.invocation.args, strings(&["--project-dir", "/tests/gradle_project"]));
    assert_eq!(launch.invocation.working_dir, "/tests/gradle_project");
    assert_eq!(
        launch.warning,
        Some("Did not find gradlew wrapper! Trying gradle from $PATH".to_string())
    );
    assert_eq!(
        launch.announcement,
        "Executing gradle --project-dir /tests/gradle_project from directory /tests/gradle_project"
    );
}

#[test]
fn wrapper_above_the_root_is_preferred_over_the_fallback() {
    let tree = tree(&[
        &["mono", "gradlew"],
        &["mono", "proj", "settings.gradle"],
        &["mono", "proj", "src"],
    ]);
    let launch = launch(&tree, &["mono", "proj", "src"], &["gw", "build"]).unwrap();
    assert_eq!(launch.invocation.program, "/mono/gradlew");
    assert_eq!(launch.invocation.args, strings(&["--project-dir", "/mono/proj", "build"]));
    assert_eq!(launch.invocation.working_dir, "/mono/proj");
    assert_eq!(launch.warning, None);
}

#[test]
fn wrapper_below_the_root_is_preferred_over_the_fallback() {
    let tree = tree(&[
        &["proj", "settings.gradle"],
        &["proj", "tools", "gradlew"],
        &["proj", "tools", "scripts"],
    ]);
    let launch = launch(&tree, &["proj", "tools", "scripts"], &["gw"]).unwrap();
    assert_eq!(launch.invocation.program, "/proj/tools/gradlew");
    assert_eq!(launch.invocation.working_dir, "/proj");
    assert_eq!(launch.warning, None);
}

#[test]
fn nearest_wrapper_is_taken() {
    let tree = tree(&[
        &["gradlew"],
        &["proj", "gradlew"],
        &["proj", "settings.gradle"],
        &["proj", "sub", "gradlew"],
        &["proj", "sub", "src"],
    ]);
    let launch = launch(&tree, &["proj", "sub", "src"], &["gw"]).unwrap();
    assert_eq!(launch.invocation.program, "/proj/sub/gradlew");
    assert_eq!(launch.invocation.working_dir, "/proj");
}

#[test]
fn wrapper_search_starts_over_at_the_origin() {
    let tree = tree(&[
        &["outer", "settings.gradle"],
        &["outer", "gradlew"],
        &["outer", "a", "b", "gradlew"],
        &["outer", "a", "b", "c"],
    ]);
    let launch = launch(&tree, &["outer", "a", "b", "c"], &["gw"]).unwrap();
    assert_eq!(launch.invocation.program, "/outer/a/b/gradlew");
    assert_eq!(launch.invocation.working_dir, "/outer");
}

#[test]
fn windows_launch_takes_the_batch_wrapper() {
    let root = AbsPath::root("C:\\").child("proj");
    let tree = DirTree {
        paths: vec![
            root.child("settings.gradle.kts"),
            root.child("gradlew"),
            root.child("gradlew.bat"),
            root.child("src"),
        ],
    };
    let search = Search::start(root.child("src"), Platform::Windows, strings(&["gw.exe", "tasks"]));
    let launch = search.run_on(&tree).unwrap();
    assert_eq!(launch.invocation.program, "C:\\proj\\gradlew.bat");
    assert_eq!(launch.invocation.args, strings(&["--project-dir", "C:\\proj", "tasks"]));
    assert_eq!(launch.invocation.working_dir, "C:\\proj");
}

#[test]
fn posix_launch_ignores_a_lone_batch_wrapper() {
    let tree = tree(&[&["proj", "settings.gradle"], &["proj", "gradlew.bat"]]);
    let launch = launch(&tree, &["proj"], &["gw"]).unwrap();
    assert_eq!(launch.invocation.program, "gradle");
    assert!(launch.warning.is_some());
}

#[test]
fn search_starts_at_the_origin_without_a_root() {
    let search = Search::start(at(&["proj", "src"]), Platform::Posix, strings(&["gw", "build"]));
    assert_eq!(search.origin, at(&["proj", "src"]));
    assert_eq!(search.at, at(&["proj", "src"]));
    assert_eq!(search.root, None);
    assert_eq!(search.platform, Platform::Posix);
    assert_eq!(search.argv, strings(&["gw", "build"]));
}

#[test]
fn listing_without_a_settings_file_asks_for_the_parent() {
    let search = Search::start(at(&["proj", "src"]), Platform::Posix, strings(&["gw"]));
    let next = search.listed(&strings(&["main", "test"]));
    assert_eq!(
        next,
        Next::List(Search {
            origin: at(&["proj", "src"]),
            platform: Platform::Posix,
            argv: strings(&["gw"]),
            root: None,
            at: at(&["proj"]),
        })
    );
}

#[test]
fn listing_with_a_settings_file_starts_the_wrapper_search_at_the_origin() {
    let search = Search {
        origin: at(&["proj", "src"]),
        platform: Platform::Posix,
        argv: strings(&["gw"]),
        root: None,
        at: at(&["proj"]),
    };
    let next = search.listed(&strings(&["gradlew", "settings.gradle", "src"]));
    assert_eq!(
        next,
        Next::List(Search {
            origin: at(&["proj", "src"]),
            platform: Platform::Posix,
            argv: strings(&["gw"]),
            root: Some(at(&["proj"])),
            at: at(&["proj", "src"]),
        })
    );
}

#[test]
fn listing_of_the_root_without_a_settings_file_ends_the_launch() {
    let search = Search::start(at(&[]), Platform::Posix, strings(&["gw"]));
    let next = search.listed(&strings(&["home", "tmp"]));
    assert_eq!(
        next,
        Next::End(Exit {
            code: 1,
            diagnostic: Some("Did not find settings.gradle or settings.gradle.kts file!".to_string()),
        })
    );
}

#[test]
fn listing_with_the_wrapper_hands_over() {
    let search = Search {
        origin: at(&["proj", "src"]),
        platform: Platform::Posix,
        argv: strings(&["gw", "test"]),
        root: Some(at(&["proj"])),
        at: at(&["proj"]),
    };
    let next = search.listed(&strings(&["settings.gradle", "gradlew"]));
    assert_eq!(
        next,
        Next::Run(Launch {
            invocation: Invocation {
                program: "/proj/gradlew".to_string(),
                args: strings(&["--project-dir", "/proj", "test"]),
                working_dir: "/proj".to_string(),
            },
            announcement: "Executing /proj/gradlew --project-dir /proj test from directory /proj"
                .to_string(),
            warning: None,
        })
    );
}

#[test]
fn listing_without_the_wrapper_asks_for_the_parent() {
    let search = Search {
        origin: at(&["proj", "src"]),
        platform: Platform::Posix,
        argv: strings(&["gw"]),
        root: Some(at(&["proj"])),
        at: at(&["proj", "src"]),
    };
    let next = search.listed(&strings(&["main"]));
    assert_eq!(
        next,
        Next::List(Search {
            origin: at(&["proj", "src"]),
            platform: Platform::Posix,
            argv: strings(&["gw"]),
            root: Some(at(&["proj"])),
            at: at(&["proj"]),
        })
    );
}

#[test]
fn listing_of_the_root_without_the_wrapper_falls_back() {
    let search = Search {
        origin: at(&["proj"]),
        platform: Platform::Posix,
        argv: strings(&["gw"]),
        root: Some(at(&["proj"])),
        at: at(&[]),
    };
    match search.listed(&strings(&["proj"])) {
        Next::Run(launch) => {
            assert_eq!(launch.invocation.program, "gradle");
            assert_eq!(launch.invocation.working_dir, "/proj");
            assert_eq!(
                launch.warning,
                Some("Did not find gradlew wrapper! Trying gradle from $PATH".to_string())
            );
        }
        other => panic!("the launcher should hand over, not {:?}", other),
    }
}

#[test]
fn prepared_launch_announces_its_invocation() {
    let launch = Launch::prepare(&at(&["proj"]), Some(at(&["mono"])), Platform::Posix, &strings(&["gw", "a", "b"]));
    assert_eq!(launch.invocation.program, "/mono/gradlew");
    assert_eq!(launch.invocation.args, strings(&["--project-dir", "/proj", "a", "b"]));
    assert_eq!(
        launch.announcement,
        "Executing /mono/gradlew --project-dir /proj a b from directory /proj"
    );
    assert_eq!(launch.warning, None);
}

#[test]
fn listings_one_by_one_end_as_the_run_on_the_tree() {
    let tree = kts_files();
    let mut search = Search::start(at(&["tmp", "kts_files", "src", "main"]), Platform::Posix, strings(&["gw"]));
    let mut asked = vec![];
    let end = loop {
        asked.push(search.at.to_text("/"));
        let entries = tree.list(&search.at);
        match search.listed(&entries) {
            Next::List(next) => search = next,
            Next::Run(launch) => break Ok(launch),
            Next::End(exit) => break Err(exit),
        }
    };
    assert_eq!(
        asked,
        strings(&[
            "/tmp/kts_files/src/main",
            "/tmp/kts_files/src",
            "/tmp/kts_files",
            "/tmp/kts_files/src/main",
            "/tmp/kts_files/src",
            "/tmp/kts_files",
        ])
    );
    assert_eq!(end, launch(&tree, &["tmp", "kts_files", "src", "main"], &["gw"]));
}
