use hello_rs::failure::Failure;
use hello_rs::registry::{
    check_installed_command, check_update_commmand, command_for, header_lines, lookup,
    CommandKind, Intent,
};

fn args(spec: &hello_rs::registry::CommandSpec) -> Vec<&str> {
    spec.args.iter().map(|a| a.as_str()).collect()
}

#[test]
fn update_commands_follow_the_table() {
    let (kind, spec) = check_update_commmand("pacman").unwrap();
    assert_eq!(kind, CommandKind::Pacman);
    assert_eq!(spec.program, "checkupdates");
    assert!(spec.args.is_empty());

    let (kind, spec) = check_update_commmand("apt").unwrap();
    assert_eq!(kind, CommandKind::Apt);
    assert_eq!(spec.program, "apt");
    assert_eq!(args(&spec), vec!["list", "-u"]);

    let (kind, spec) = check_update_commmand("xbps").unwrap();
    assert_eq!(kind, CommandKind::Xbps);
    assert_eq!(spec.program, "xbps-install");
    assert_eq!(args(&spec), vec!["-Sun"]);

    let (kind, spec) = check_update_commmand("portage").unwrap();
    assert_eq!(kind, CommandKind::Portage);
    assert_eq!(spec.program, "eix");
    assert_eq!(args(&spec), vec!["-u", "--format", "'<installedversions:nameversion>'"]);

    let (kind, spec) = check_update_commmand("apk").unwrap();
    assert_eq!(kind, CommandKind::Apk);
    assert_eq!(spec.program, "apk");
    assert_eq!(args(&spec), vec!["-u", "list"]);

    let (kind, spec) = check_update_commmand("dnf").unwrap();
    assert_eq!(kind, CommandKind::Dnf);
    assert_eq!(spec.program, "dnf");
    assert_eq!(args(&spec), vec!["check-update"]);
}

#[test]
fn installed_commands_follow_the_table() {
    let (kind, spec) = check_installed_command("pacman").unwrap();
    assert_eq!(kind, CommandKind::Pacman);
    assert_eq!(spec.program, "pacman");
    assert_eq!(args(&spec), vec!["-Q"]);

    let (_, spec) = check_installed_command("apt").unwrap();
    assert_eq!(spec.program, "apt");
    assert_eq!(args(&spec), vec!["list", "-i"]);

    let (_, spec) = check_installed_command("xbps").unwrap();
    assert_eq!(spec.program, "xbps-query");
    assert_eq!(args(&spec), vec!["-l"]);

    let (_, spec) = check_installed_command("portage").unwrap();
    assert_eq!(spec.program, "eix-installed");
    assert_eq!(args(&spec), vec!["-a"]);

    let (_, spec) = check_installed_command("apk").unwrap();
    assert_eq!(spec.program, "apk");
    assert_eq!(args(&spec), vec!["info"]);

    let (_, spec) = check_installed_command("dnf").unwrap();
    assert_eq!(spec.program, "dnf");
    assert_eq!(args(&spec), vec!["list", "installed"]);
}

#[test]
fn quotes_around_a_name_do_not_count() {
    let (kind, spec) = check_update_commmand("\"apt\"").unwrap();
    assert_eq!(kind, CommandKind::Apt);
    assert_eq!(spec.program, "apt");
    assert_eq!(lookup("\"\"dnf\""), Some(CommandKind::Dnf));
    assert_eq!(lookup("d\"nf"), None);
}

#[test]
fn unknown_names_are_refused() {
    assert_eq!(check_update_commmand("zypper").unwrap_err(), Failure::UnsupportedManager);
    assert_eq!(check_installed_command("").unwrap_err(), Failure::UnsupportedManager);
    assert_eq!(check_installed_command("Pacman").unwrap_err(), Failure::UnsupportedManager);
    assert_eq!(lookup("\"\""), None);
}

#[test]
fn header_lines_depend_on_manager_and_intent() {
    assert_eq!(header_lines(CommandKind::Apt, Intent::CountUpdates), 2);
    assert_eq!(header_lines(CommandKind::Apt, Intent::CountInstalled), 2);
    assert_eq!(header_lines(CommandKind::Dnf, Intent::CountUpdates), 3);
    assert_eq!(header_lines(CommandKind::Dnf, Intent::CountInstalled), 0);
    assert_eq!(header_lines(CommandKind::Pacman, Intent::CountUpdates), 0);
    assert_eq!(header_lines(CommandKind::Portage, Intent::CountInstalled), 0);
}

#[test]
fn commands_carry_their_header_lines() {
    assert_eq!(check_update_commmand("apt").unwrap().1.header_lines, 2);
    assert_eq!(check_installed_command("apt").unwrap().1.header_lines, 2);
    assert_eq!(check_update_commmand("dnf").unwrap().1.header_lines, 3);
    assert_eq!(check_installed_command("dnf").unwrap().1.header_lines, 0);
    assert_eq!(check_update_commmand("pacman").unwrap().1.header_lines, 0);
}

#[test]
fn command_for_agrees_with_the_lookup_functions() {
    let spec = command_for(CommandKind::Xbps, Intent::CountInstalled);
    let (_, other) = check_installed_command("xbps").unwrap();
    assert_eq!(spec.program, other.program);
    assert_eq!(spec.args, other.args);
}
