use bpfcontain::bpf_program::{
    BpfcontainContext, PolicyFileAction, PolicyFileEvent, WorkAction, WorkEvent,
};
use bpfcontain::failure::Failure;
use bpfcontain::globals::BpfGlobals;
use bpfcontain::policies::{escape, policy_pattern, PolicyDirAction, PolicyDirLoad};

fn context() -> BpfcontainContext {
    BpfcontainContext {
        globals: BpfGlobals {
            bpfcontain_pid: 1,
            host_mnt_ns_id: 2,
            host_pid_ns_id: 3,
            audit_level: 4,
        },
        links: vec![],
    }
}

#[test]
fn the_work_loop_polls_and_pauses() {
    let context = context();
    let poll = WorkAction::Poll { secs: 1, nanos: 0 };
    let sleep = WorkAction::Sleep { millis: 100 };
    let step = context.work_loop(WorkEvent::Entered);
    assert_eq!((step.action, step.warning), (poll, None));
    let step = context.work_loop(WorkEvent::Polled(Ok(())));
    assert_eq!((step.action, step.warning), (sleep, None));
    let step = context.work_loop(WorkEvent::Slept);
    assert_eq!((step.action, step.warning), (poll, None));
}

#[test]
fn the_work_loop_outlives_a_failed_poll() {
    let step = context().work_loop(WorkEvent::Polled(Err("interrupted".to_string())));
    assert_eq!(step.action, WorkAction::Sleep { millis: 100 });
    assert_eq!(step.warning, Some("Failed to poll ring buffer: interrupted".to_string()));
}

#[test]
fn a_policy_that_cannot_be_loaded_is_named() {
    let mut context = context();
    assert!(context.load_policy("web", Ok::<(), String>(())).is_ok());
    let failure = context.load_policy("web", Err("full")).unwrap_err_failure();
    assert_eq!(failure.contexts, vec!["Failed to load policy web"]);
    assert_eq!(failure.cause, "full");
}

#[test]
fn a_policy_that_cannot_be_unloaded_is_named() {
    let mut context = context();
    assert!(context.unload_policy("web", Ok::<(), String>(())).is_ok());
    let failure = context.unload_policy("web", Err("gone")).unwrap_err_failure();
    assert_eq!(failure.contexts, vec!["Failed to unload policy web"]);
    assert_eq!(failure.cause, "gone");
}

trait UnwrapFailure<E> {
    fn unwrap_err_failure(self) -> Failure<E>;
}

impl<E> UnwrapFailure<E> for Result<(), Failure<E>> {
    fn unwrap_err_failure(self) -> Failure<E> {
        match self {
            Ok(()) => panic!("no failure"),
            Err(failure) => failure,
        }
    }
}

#[test]
fn a_policy_file_is_parsed_and_then_loaded() {
    let mut context = context();
    let action = context.load_policy_from_file(PolicyFileEvent::<u32, String>::Named);
    assert!(matches!(action, PolicyFileAction::Parse));
    let action = context.load_policy_from_file(PolicyFileEvent::<u32, String>::Parsed(Ok(7)));
    assert!(matches!(action, PolicyFileAction::Load(7)));
    let action = context
        .load_policy_from_file(PolicyFileEvent::<u32, String>::Loaded("web".to_string(), Ok(())));
    assert!(matches!(action, PolicyFileAction::Done(Ok(()))));
}

#[test]
fn a_policy_file_fails_where_parsing_or_loading_does() {
    let mut context = context();
    match context.load_policy_from_file(PolicyFileEvent::<u32, &str>::Parsed(Err("syntax"))) {
        PolicyFileAction::Done(Err(failure)) => {
            assert!(failure.contexts.is_empty());
            assert_eq!(failure.cause, "syntax");
        }
        _ => panic!("not a failure"),
    }
    let event = PolicyFileEvent::<u32, &str>::Loaded("web".to_string(), Err("full"));
    match context.load_policy_from_file(event) {
        PolicyFileAction::Done(Err(failure)) => {
            assert_eq!(failure.contexts, vec!["Failed to load policy web"]);
            assert_eq!(failure.cause, "full");
        }
        _ => panic!("not a failure"),
    }
}

#[test]
fn policy_files_are_yaml_toml_and_json() {
    assert_eq!(policy_pattern("/etc/policy", 0), "/etc/policy/**/*.yml");
    assert_eq!(policy_pattern("/etc/policy", 1), "/etc/policy/**/*.yaml");
    assert_eq!(policy_pattern("/etc/policy", 2), "/etc/policy/**/*.toml");
    assert_eq!(policy_pattern("/etc/policy", 3), "/etc/policy/**/*.json");
}

#[test]
fn a_directory_is_taken_literally() {
    assert_eq!(policy_pattern("/p[1]", 0), "/p[[]1[]]/**/*.yml");
    assert_eq!(policy_pattern("/etc/[x", 3), "/etc/[[]x/**/*.json");
    assert_eq!(policy_pattern("/a*b?", 1), "/a[*]b[?]/**/*.yaml");
    assert_eq!(policy_pattern("", 2), "/**/*.toml");
    assert_ne!(policy_pattern("/a*", 0), policy_pattern("/a[*]", 0));
}

#[test]
fn a_pattern_matches_below_its_own_directory_only() {
    for dir in ["/p[1]", "/etc/[x", "/a*b?", "/!plain", "/**/x"] {
        let pattern = glob::Pattern::new(&policy_pattern(dir, 0)).unwrap();
        assert!(pattern.matches(&format!("{}/a.yml", dir)));
        assert!(pattern.matches(&format!("{}/b/c/a.yml", dir)));
        assert!(!pattern.matches(&format!("{}/a.json", dir)));
        assert!(!pattern.matches("/p1/a.yml"));
        assert!(!pattern.matches("/axbx/a.yml"));
        assert!(!pattern.matches("/y/x/a.yml"));
    }
}

#[test]
fn special_characters_are_put_into_brackets() {
    assert_eq!(escape("a?*[]b"), "a[?][*][[][]]b");
    for text in ["", "/etc/policy", "?", "**", "[a-z]", "!{}\\", "\u{e4}*\u{1f600}]"] {
        assert_eq!(escape(text), glob::Pattern::escape(text));
    }
}

#[test]
fn a_listed_directory_is_taken_literally() {
    let mut load: PolicyDirLoad<u32> = context().load_policy_from_dir("/p[1]");
    match load.next() {
        PolicyDirAction::ListFiles { pattern } => assert_eq!(pattern, "/p[[]1[]]/**/*.yml"),
        _ => panic!("not a listing"),
    }
}

#[test]
fn every_readable_policy_file_is_tried() {
    let mut load: PolicyDirLoad<u32> = context().load_policy_from_dir("/p");
    let mut listings: Vec<Vec<Result<u32, ()>>> =
        vec![vec![Ok(4), Err(()), Ok(5)], vec![], vec![Err(()), Ok(3)], vec![Ok(1), Ok(2)]];
    let mut patterns = Vec::new();
    let mut files = Vec::new();
    let mut warnings = Vec::new();
    loop {
        match load.next() {
            PolicyDirAction::ListFiles { pattern } => {
                patterns.push(pattern);
                load.files_listed(listings.pop().unwrap());
            }
            PolicyDirAction::LoadFile { path } => {
                files.push(path);
                let outcome = if path % 2 == 0 {
                    Err(Failure { contexts: vec![], cause: path })
                } else {
                    Ok(())
                };
                warnings.extend(load.file_loaded(outcome).map(|failure| failure.cause));
            }
            PolicyDirAction::Finished => break,
        }
    }
    assert_eq!(patterns, vec!["/p/**/*.yml", "/p/**/*.yaml", "/p/**/*.toml", "/p/**/*.json"]);
    assert_eq!(files, vec![1, 2, 3, 4, 5]);
    assert_eq!(warnings, vec![2, 4]);
    assert!(matches!(load.next(), PolicyDirAction::Finished));
}

#[test]
fn contexts_go_from_the_inside_out() {
    let failure = Failure::bare(1).context("inner".to_string()).context("outer".to_string());
    assert_eq!(failure.contexts, vec!["inner", "outer"]);
    assert_eq!(failure.cause, 1);
}
