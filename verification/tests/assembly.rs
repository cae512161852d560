use hello_rs::assembly::{assemble, greet, Facts};
use hello_rs::clock::Moment;
use hello_rs::failure::Failure;
use hello_rs::multiplexer::{check_updates, get_package_count, PackageManagers, UnitOutcome};
use hello_rs::parser::RawOutput;

fn facts() -> Facts {
    Facts {
        hostname: "me@box".to_string(),
        name: "\"Ann\"".to_string(),
        moment: Moment::new(3, 1, 9, 5).unwrap(),
        time_format: "\"24h\"".to_string(),
        units: "\"metric\"".to_string(),
        weather_icon: "01d".to_string(),
        weather_main: "Clear".to_string(),
        temperature: "23.57".to_string(),
        release: "\"Arch Linux\"".to_string(),
        kernel: "6.6.1-arch1-1\n".to_string(),
        memory: "3.2 GB".to_string(),
        disk: "120 GB".to_string(),
        environment: "gnome".to_string(),
        updates: 6,
        packages: 1200,
        song_enabled: true,
        song_stdout: "Artist - Title\n".to_string(),
        song_stderr: String::new(),
    }
}

fn row(text: &str, clusters: usize) -> String {
    format!("{}{}│", text, " ".repeat(45 - clusters))
}

#[test]
fn the_whole_box() {
    let rows = greet(&facts()).unwrap();
    let expected = vec![
        format!("╭─\x1b[32mme@box\x1b[0m{}╮", "─".repeat(38)),
        row("│ 🌇 Good morning, Ann!", 22),
        row("│ 🕘 March 1st, 09:05", 20),
        row("│ ☀️ Clear 23°C", 14),
        row("│ 💻 Arch Linux", 14),
        row("│ 🫀 6.6.1-arch1-1", 17),
        row("│ 🧠 3.2 GB Used", 15),
        row("│ 💾 120 GB Free", 15),
        row("│ 🖥️ Gnome", 9),
        row("│ 6️⃣ 6 updates", 13),
        row("│ 📦 1200 packages", 17),
        row("│ 🎵 Artist - Title", 18),
        "╰─────────────────────────────────────────────╯".to_string(),
    ];
    assert_eq!(rows, expected);
}

#[test]
fn without_managers_both_count_lines_are_left_out() {
    let updates = check_updates(&PackageManagers::Absent, &Vec::new()).unwrap();
    let packages = get_package_count(&PackageManagers::Absent, &Vec::new()).unwrap();
    assert_eq!((updates, packages), (-1, -1));
    let mut f = facts();
    f.updates = updates;
    f.packages = packages;
    let lines = assemble(&f);
    assert_eq!(lines.len(), 11);
    assert!(!lines[8].visible);
    assert!(!lines[9].visible);
    let rows = greet(&f).unwrap();
    assert_eq!(rows.len(), 11);
    assert!(rows.iter().all(|r| !r.contains("updates") && !r.contains("packages")));
    assert!(rows.iter().all(|r| !r.contains("none")));
}

#[test]
fn an_empty_environment_is_left_out_and_a_name_is_capitalized() {
    let mut f = facts();
    f.environment = String::new();
    let rows = greet(&f).unwrap();
    assert_eq!(rows.len(), 12);
    assert!(rows.iter().all(|r| !r.contains("🖥️")));
    f.environment = "gnome".to_string();
    let rows = greet(&f).unwrap();
    assert_eq!(rows[8], row("│ 🖥️ Gnome", 9));
}

#[test]
fn with_the_song_switched_off_the_media_line_is_left_out() {
    let managers =
        PackageManagers::List(vec!["pacman".to_string(), "apt".to_string()]);
    let outcomes = vec![
        UnitOutcome::Completed(RawOutput {
            stdout: b"a\nb\nc\n".to_vec(),
            stderr: Vec::new(),
            status: Some(0),
        }),
        UnitOutcome::Completed(RawOutput {
            stdout: b"Listing...\nDone\nx\ny\nz\n".to_vec(),
            stderr: Vec::new(),
            status: Some(0),
        }),
    ];
    let mut f = facts();
    f.updates = check_updates(&managers, &outcomes).unwrap();
    f.song_enabled = false;
    assert_eq!(f.updates, 6);
    let rows = greet(&f).unwrap();
    assert_eq!(rows.len(), 12);
    assert!(rows.iter().all(|r| !r.contains("🎵")));
    assert_eq!(rows[9], row("│ 6️⃣ 6 updates", 13));
}

#[test]
fn zero_and_one_have_their_own_phrases() {
    let mut f = facts();
    f.updates = 0;
    f.packages = 0;
    let rows = greet(&f).unwrap();
    assert_eq!(rows[9], row("│ ☑️ Up to date", 14));
    assert_eq!(rows[10], row("│ 📦 No packages", 15));
    f.packages = 1;
    assert_eq!(greet(&f).unwrap()[10], row("│ 📦 1 package", 13));
}

#[test]
fn long_facts_are_capped_but_a_long_name_fails() {
    let mut f = facts();
    f.release = "R".repeat(80);
    f.kernel = "K".repeat(80);
    f.song_stdout = "S".repeat(80);
    let rows = greet(&f).unwrap();
    assert_eq!(rows[4], format!("│ 💻 {}... │", "R".repeat(37)));
    assert_eq!(rows[5], format!("│ 🫀 {}... │", "K".repeat(37)));
    assert_eq!(rows[11], format!("│ 🎵 {}... │", "S".repeat(37)));
    f.name = "N".repeat(60);
    assert_eq!(greet(&f), Err(Failure::LineTooLong));
}
