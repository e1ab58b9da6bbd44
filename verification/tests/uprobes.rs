use bpfcontain::uprobes::{uprobe, Link, Target, UprobeAction, UprobeAttach, UPROBE_COUNT};

const NEW_INIT_PROCESS: &str =
    "github.com/opencontainers/runc/libcontainer.(*linuxContainer).newInitProcess";

/// A 64-bit little-endian ELF file whose only symbol, in both tables, is the given one.
fn elf_with(name: &str, address: u64) -> Vec<u8> {
    let mut symbols = vec![0u8; 24];
    symbols.extend_from_slice(&1u32.to_le_bytes());
    symbols.extend_from_slice(&[0x12, 0, 1, 0]);
    symbols.extend_from_slice(&address.to_le_bytes());
    symbols.extend_from_slice(&0u64.to_le_bytes());
    let mut strings = vec![0u8];
    strings.extend_from_slice(name.as_bytes());
    strings.push(0);
    let strings_at = 64 + symbols.len();
    let headers_at = strings_at + strings.len();

    let mut file = vec![0x7f, b'E', b'L', b'F', 2, 1, 1, 0, 0, 0, 0, 0, 0, 0, 0, 0];
    file.extend_from_slice(&[2, 0, 62, 0, 1, 0, 0, 0]);
    file.extend_from_slice(&[0u8; 16]);
    file.extend_from_slice(&(headers_at as u64).to_le_bytes());
    file.extend_from_slice(&0u32.to_le_bytes());
    for half in [64u16, 56, 0, 64, 4, 3] {
        file.extend_from_slice(&half.to_le_bytes());
    }
    file.extend_from_slice(&symbols);
    file.extend_from_slice(&strings);
    for (kind, offset, size, link) in [
        (0u32, 0, 0, 0u32),
        (11, 64, symbols.len(), 3),
        (2, 64, symbols.len(), 3),
        (3, strings_at, strings.len(), 0),
    ] {
        file.extend_from_slice(&0u32.to_le_bytes());
        file.extend_from_slice(&kind.to_le_bytes());
        file.extend_from_slice(&[0u8; 16]);
        file.extend_from_slice(&(offset as u64).to_le_bytes());
        file.extend_from_slice(&(size as u64).to_le_bytes());
        file.extend_from_slice(&link.to_le_bytes());
        file.extend_from_slice(&[0u8; 20]);
    }
    file
}

fn contents(path: &str) -> Result<Vec<u8>, String> {
    match path {
        "/usr/bin/runc" => Ok(elf_with("x_cgo_init", 0x1000)),
        "/usr/bin/dockerd" => {
            Ok(elf_with("github.com/docker/docker/container.(*State).SetRunning", 0x2000))
        }
        _ => Err("unexpected".to_string()),
    }
}

/// Carries attaching on until it is over. Attaching the link `fails` fails.
fn run(
    state: &mut UprobeAttach,
    fails: Option<Link>,
    binary: fn(&str) -> Result<Vec<u8>, String>,
) -> (Vec<String>, Vec<String>, Option<String>) {
    let mut actions = Vec::new();
    let mut warnings = Vec::new();
    loop {
        let link = match state.action() {
            UprobeAction::AttachFunction { link, on_return, pid } => {
                assert_eq!((on_return, pid), (false, -1));
                actions.push(format!("function {:?}", link));
                link
            }
            UprobeAction::ReadBinary { path } => {
                actions.push(format!("read {}", path));
                warnings.extend(state.binary_read(binary(path)).warning);
                continue;
            }
            UprobeAction::AttachAddress { link, on_return, pid, path, address } => {
                assert_eq!((on_return, pid), (false, -1));
                actions.push(format!("address {:?} {} {:x}", link, path, address));
                link
            }
            UprobeAction::AttachSymbol { link, on_return, pid, path, symbol } => {
                assert_eq!((on_return, pid), (false, -1));
                actions.push(format!("symbol {:?} {} {}", link, path, symbol));
                link
            }
            UprobeAction::Finished => return (actions, warnings, None),
            UprobeAction::Failed => panic!("failed before"),
        };
        let outcome = if fails == Some(link) { Err("refused".to_string()) } else { Ok(()) };
        if let Err(error) = state.attach_done(outcome) {
            return (actions, warnings, Some(error));
        }
    }
}

#[test]
fn uprobes_are_attached_in_order() {
    let mut state = UprobeAttach::new();
    let (actions, warnings, error) = run(&mut state, None, contents);
    assert_eq!(error, None);
    assert!(warnings.is_empty());
    assert_eq!(
        actions,
        vec![
            "function DoContainerize".to_string(),
            "function DoApplyPolicyToContainer".to_string(),
            "read /usr/bin/runc".to_string(),
            "address RuncXCgoInitEnter /usr/bin/runc 1000".to_string(),
            "read /usr/bin/dockerd".to_string(),
            "address DockerdContainerRunningEnter /usr/bin/dockerd 2000".to_string(),
            "symbol CrioMainEnter /usr/local/bin/crio main.main".to_string(),
            "symbol RuncStartContainerEnter /usr/bin/runc main.startContainer".to_string(),
            "symbol RuncCreateContainerEnter /usr/bin/runc main.createContainer".to_string(),
            format!("symbol RuncInitProcEnter /usr/bin/runc {}", NEW_INIT_PROCESS),
            format!("symbol RuncInitProcStartEnter /usr/bin/runc {}", NEW_INIT_PROCESS),
            "symbol RuncWaitForChildExitEnter /usr/bin/runc \
             github.com/opencontainers/runc/libcontainer.(*initProcess).waitForChildExit"
                .to_string(),
            "symbol RuncStartEnter /usr/bin/runc \
             github.com/opencontainers/runc/libcontainer.(*linuxContainer).exec"
                .to_string(),
            "symbol RuncDestroyEnter /usr/bin/runc main.destroy".to_string(),
        ]
    );
    let links = state.into_attached();
    assert_eq!(links.len(), 12);
    assert_eq!(links[0], Link::DoContainerize);
    assert_eq!(links[11], Link::RuncDestroyEnter);
}

#[test]
fn missing_docker_binaries_are_passed_over_with_a_warning() {
    let mut state = UprobeAttach::new();
    let (actions, warnings, error) = run(&mut state, None, |path| match path {
        "/usr/bin/runc" => Err("No such file or directory".to_string()),
        _ => Ok(elf_with("something.else", 1)),
    });
    assert_eq!(error, None);
    assert_eq!(
        warnings,
        vec![
            "Docker support will not work! runc uprobe could not be attached: \
             No such file or directory",
            "Docker support will not work! dockerd uprobe could not be attached: \
             symbol not found 2",
        ]
    );
    assert_eq!(actions.len(), 12);
    let links = state.into_attached();
    assert_eq!(links.len(), 10);
    assert!(!links.contains(&Link::RuncXCgoInitEnter));
    assert!(!links.contains(&Link::DockerdContainerRunningEnter));
}

#[test]
fn a_docker_uprobe_that_is_found_and_cannot_be_attached_ends_it() {
    let mut state = UprobeAttach::new();
    let (actions, warnings, error) =
        run(&mut state, Some(Link::DockerdContainerRunningEnter), contents);
    assert_eq!(error, Some("refused".to_string()));
    assert!(warnings.is_empty());
    assert_eq!(actions.len(), 6);
    assert!(matches!(state.action(), UprobeAction::Failed));
    assert_eq!(
        state.into_attached(),
        vec![Link::DoContainerize, Link::DoApplyPolicyToContainer, Link::RuncXCgoInitEnter]
    );
}

#[test]
fn the_first_uprobe_that_cannot_be_attached_ends_it() {
    let mut state = UprobeAttach::new();
    let (actions, _, error) = run(&mut state, Some(Link::DoContainerize), contents);
    assert_eq!(error, Some("refused".to_string()));
    assert_eq!(actions, vec!["function DoContainerize"]);
    assert!(state.into_attached().is_empty());
}

#[test]
fn a_lookup_is_reported_on_standard_output() {
    let mut state = UprobeAttach::new();
    assert!(state.attach_done(Ok::<(), ()>(())).is_ok());
    assert!(state.attach_done(Ok::<(), ()>(())).is_ok());
    let report = state.binary_read(contents("/usr/bin/runc"));
    assert_eq!(
        report.output,
        vec!["KEVIN DEBUG: /usr/bin/runc", "KEVIN DEBUG SYMBOL FOUND x_cgo_init"]
    );
    assert_eq!(report.warning, None);
    assert!(matches!(
        state.action(),
        UprobeAction::AttachAddress { link: Link::RuncXCgoInitEnter, address: 0x1000, .. }
    ));
}

#[test]
fn the_plan_names_every_link_once() {
    let mut links = Vec::new();
    for position in 0..UPROBE_COUNT {
        let entry = uprobe(position);
        assert!(!links.contains(&entry.link));
        links.push(entry.link);
    }
    assert!(matches!(uprobe(0).target, Target::OwnFunction));
    assert!(matches!(
        uprobe(2).target,
        Target::OptionalFunction { path: "/usr/bin/runc", symbol: "x_cgo_init", .. }
    ));
    assert!(matches!(
        uprobe(11).target,
        Target::Function { path: "/usr/bin/runc", symbol: "main.destroy" }
    ));
}
