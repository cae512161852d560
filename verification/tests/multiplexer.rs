use hello_rs::failure::Failure;
use hello_rs::multiplexer::{
    check_updates, do_installed_counting, do_update_counting, get_package_count, plan, run,
    PackageManagers, UnitOutcome, DISABLED,
};
use hello_rs::parser::RawOutput;
use hello_rs::registry::Intent;

fn done(text: &str) -> UnitOutcome {
    UnitOutcome::Completed(RawOutput {
        stdout: text.as_bytes().to_vec(),
        stderr: Vec::new(),
        status: Some(0),
    })
}

fn list(names: &[&str]) -> PackageManagers {
    PackageManagers::List(names.iter().map(|n| n.to_string()).collect())
}

#[test]
fn no_managers_means_disabled() {
    assert_eq!(DISABLED, -1);
    assert_eq!(run(&PackageManagers::Absent, Intent::CountUpdates, &Vec::new()), Ok(-1));
    assert_eq!(run(&list(&[]), Intent::CountInstalled, &Vec::new()), Ok(-1));
    assert_eq!(run(&PackageManagers::Absent, Intent::CountUpdates, &vec![done("a\n")]), Ok(-1));
    assert_eq!(check_updates(&PackageManagers::Absent, &Vec::new()), Ok(-1));
    assert_eq!(get_package_count(&PackageManagers::Absent, &Vec::new()), Ok(-1));
}

#[test]
fn one_manager_gives_its_own_count() {
    let single = PackageManagers::Single("pacman".to_string());
    let outcome = done("a\nb\nc\nd\n");
    assert_eq!(do_update_counting("pacman", &outcome), Ok(4));
    assert_eq!(run(&single, Intent::CountUpdates, &vec![outcome.clone()]), Ok(4));
    assert_eq!(run(&list(&["pacman"]), Intent::CountUpdates, &vec![outcome]), Ok(4));
}

#[test]
fn pacman_and_apt_updates_add_up_to_six() {
    let managers = list(&["pacman", "apt"]);
    let outcomes = vec![done("one\ntwo\nthree\n"), done("Listing...\nDone\nfour\nfive\nsix\n")];
    assert_eq!(check_updates(&managers, &outcomes), Ok(6));
}

#[test]
fn the_order_of_the_managers_does_not_change_the_total() {
    let a = done("1\n2\n");
    let b = done("h\nh\n1\n2\n3\n4\n5\n");
    let c = done("1\n");
    let forward = run(
        &list(&["pacman", "apt", "apk"]),
        Intent::CountInstalled,
        &vec![a.clone(), b.clone(), c.clone()],
    );
    let backward = run(&list(&["apk", "apt", "pacman"]), Intent::CountInstalled, &vec![c, b, a]);
    assert_eq!(forward, Ok(8));
    assert_eq!(forward, backward);
}

#[test]
fn the_same_outputs_give_the_same_total_again() {
    let managers = list(&["xbps", "dnf"]);
    let outcomes = vec![done("a\nb\n"), done("1\n2\n3\nfoo\nbar\n")];
    let first = run(&managers, Intent::CountUpdates, &outcomes);
    let second = run(&managers, Intent::CountUpdates, &outcomes);
    assert_eq!(first, Ok(4));
    assert_eq!(first, second);
}

#[test]
fn a_failed_unit_adds_nothing_and_stops_nobody() {
    let managers = list(&["pacman", "apt", "apk"]);
    let outcomes = vec![done("a\nb\n"), UnitOutcome::Failed, done("x\n")];
    assert_eq!(run(&managers, Intent::CountUpdates, &outcomes), Ok(3));
    assert_eq!(do_update_counting("apt", &UnitOutcome::Failed), Err(Failure::ManagerUnitFailure));
}

#[test]
fn a_unit_without_an_outcome_counts_as_failed() {
    let managers = list(&["pacman", "apt"]);
    assert_eq!(run(&managers, Intent::CountUpdates, &vec![done("a\nb\n")]), Ok(2));
    assert_eq!(run(&managers, Intent::CountUpdates, &Vec::new()), Ok(0));
}

#[test]
fn an_unknown_manager_fails_the_run() {
    let managers = list(&["pacman", "zypper"]);
    let outcomes = vec![done("a\n"), done("b\n")];
    assert_eq!(run(&managers, Intent::CountUpdates, &outcomes), Err(Failure::UnsupportedManager));
    assert_eq!(plan(&managers, Intent::CountUpdates).unwrap_err(), Failure::UnsupportedManager);
    assert_eq!(do_installed_counting("zypper", &done("a\n")), Err(Failure::UnsupportedManager));
}

#[test]
fn the_plan_has_one_command_for_each_manager_in_order() {
    let commands = plan(&list(&["dnf", "\"pacman\"", "dnf"]), Intent::CountInstalled).unwrap();
    assert_eq!(commands.len(), 3);
    assert_eq!(commands[0].program, "dnf");
    assert_eq!(commands[0].args, vec!["list".to_string(), "installed".to_string()]);
    assert_eq!(commands[1].program, "pacman");
    assert_eq!(commands[1].args, vec!["-Q".to_string()]);
    assert_eq!(commands[2].program, "dnf");
    assert!(plan(&PackageManagers::Absent, Intent::CountUpdates).unwrap().is_empty());
    let one = plan(&PackageManagers::Single("apk".to_string()), Intent::CountUpdates).unwrap();
    assert_eq!(one.len(), 1);
    assert_eq!(one[0].program, "apk");
}

#[test]
fn the_identifiers_are_listed_as_configured() {
    assert!(PackageManagers::Absent.identifiers().is_empty());
    assert_eq!(PackageManagers::Single("apk".to_string()).identifiers(), vec!["apk".to_string()]);
    assert_eq!(list(&["dnf", "\"apt\""]).identifiers(), vec!["dnf".to_string(), "\"apt\"".to_string()]);
    assert_eq!(list(&["dnf", "apt"]).len(), 2);
}

#[test]
fn a_total_beyond_the_count_type_is_an_overflow() {
    let managers = list(&["portage", "portage"]);
    let outcomes = vec![done("2147483647\n"), done("1\n")];
    assert_eq!(run(&managers, Intent::CountUpdates, &outcomes), Err(Failure::CountOverflow));
    let fits = vec![done("2147483646\n"), done("1\n")];
    assert_eq!(run(&managers, Intent::CountUpdates, &fits), Ok(2147483647));
}

#[test]
fn zero_found_differs_from_disabled() {
    let managers = list(&["pacman"]);
    assert_eq!(run(&managers, Intent::CountUpdates, &vec![done("")]), Ok(0));
    assert_eq!(run(&managers, Intent::CountUpdates, &vec![done("no matches")]), Ok(1));
    assert_eq!(run(&list(&["portage"]), Intent::CountUpdates, &vec![done("no matches")]), Ok(0));
}

#[test]
fn installed_counting_uses_the_rules_of_its_intent() {
    let outcome = done("1\n2\n3\n4\n");
    assert_eq!(do_installed_counting("dnf", &outcome), Ok(4));
    assert_eq!(do_update_counting("dnf", &outcome), Ok(1));
    assert_eq!(do_installed_counting("apt", &outcome), Ok(2));
}
