use hello_rs::facts::{
    count_updates, environment_line, get_environment, get_hostname, get_kernel, get_release,
    get_song, packages_line, packages_text, replace_first, song_line, updates_line, upper_first,
};

#[test]
fn upper_first_capitalizes_the_first_letter() {
    assert_eq!(upper_first("gnome".to_string()), "Gnome");
    assert_eq!(upper_first("".to_string()), "");
    assert_eq!(upper_first("KDE".to_string()), "KDE");
    assert_eq!(upper_first("ßeta".to_string()), "SSeta");
    assert_eq!(upper_first("x".to_string()), "X");
    assert_eq!(upper_first("élan".to_string()), "Élan");
}

#[test]
fn replace_first_swaps_one_character() {
    assert_eq!(replace_first("gnome", "G"), "Gnome");
    assert_eq!(replace_first("", "G"), "");
    assert_eq!(replace_first("éa", ""), "a");
}

#[test]
fn count_updates_has_a_phrase_for_each_count() {
    assert_eq!(count_updates(-1), "│ none");
    assert_eq!(count_updates(0), "│ ☑️ Up to date");
    assert_eq!(count_updates(1), "│ 1️⃣ 1 update");
    assert_eq!(count_updates(2), "│ 2️⃣ 2 updates");
    assert_eq!(count_updates(3), "│ 3️⃣ 3 updates");
    assert_eq!(count_updates(4), "│ 4️⃣ 4 updates");
    assert_eq!(count_updates(5), "│ 5️⃣ 5 updates");
    assert_eq!(count_updates(6), "│ 6️⃣ 6 updates");
    assert_eq!(count_updates(7), "│ 7️⃣ 7 updates");
    assert_eq!(count_updates(8), "│ 8️⃣ 8 updates");
    assert_eq!(count_updates(9), "│ 9️⃣ 9 updates");
    assert_eq!(count_updates(10), "│ 🔟 10 updates");
    assert_eq!(count_updates(11), "│ ‼️ 11 updates");
    assert_eq!(count_updates(2147483647), "│ ‼️ 2147483647 updates");
    assert_eq!(count_updates(-2), "│ ‼️ -2 updates");
    assert_eq!(count_updates(-2147483648), "│ ‼️ -2147483648 updates");
}

#[test]
fn the_update_line_is_hidden_when_disabled() {
    assert!(!updates_line(-1).visible);
    let line = updates_line(6);
    assert!(line.visible);
    assert_eq!(line.icon.to_text(), "6️⃣");
    assert_eq!(line.text.to_text(), "6 updates");
    assert_eq!(updates_line(0).text.to_text(), "Up to date");
}

#[test]
fn packages_are_phrased_by_number() {
    assert_eq!(packages_text(0), "No packages");
    assert_eq!(packages_text(1), "1 package");
    assert_eq!(packages_text(2), "2 packages");
    assert_eq!(packages_text(1234), "1234 packages");
    assert!(!packages_line(-1).visible);
    let line = packages_line(100);
    assert!(line.visible);
    assert_eq!(line.icon.to_text(), "📦");
    assert_eq!(line.text.to_text(), "100 packages");
}

#[test]
fn the_release_is_cleaned_and_capped() {
    assert_eq!(get_release("\"Arch Linux\""), "Arch Linux");
    assert_eq!(get_release("Debian GNU/Linux 12 (bookworm)\n"), "Debian GNU/Linux 12 (bookworm)");
    assert_eq!(get_release("\"Void\"\n"), "Void");
    let long = format!("\"{}\"", "r".repeat(50));
    assert_eq!(get_release(&long), format!("{}...", "r".repeat(37)));
    assert_eq!(get_release(""), "");
}

#[test]
fn the_kernel_is_capped() {
    assert_eq!(get_kernel("6.1.0-13-amd64\n"), "6.1.0-13-amd64");
    assert_eq!(get_kernel(&"k".repeat(38)), format!("{}...", "k".repeat(37)));
    assert_eq!(get_kernel(&"k".repeat(37)), "k".repeat(37));
}

#[test]
fn the_song_is_empty_when_switched_off_or_without_a_player() {
    assert_eq!(get_song(false, "Artist - Title\n", ""), "");
    assert_eq!(get_song(true, "", "No players found"), "");
    assert_eq!(get_song(true, "", "No players found\n"), "");
    assert_eq!(get_song(true, "x", "no players found"), "");
    assert_eq!(get_song(true, "Artist - Title\n", ""), "Artist - Title");
    assert_eq!(get_song(true, "Artist - Title\n", "some warning"), "Artist - Title");
    assert_eq!(get_song(true, &"s".repeat(45), ""), format!("{}...", "s".repeat(37)));
    assert!(!song_line(false, "Artist - Title\n", "").visible);
    assert!(!song_line(true, "\n", "").visible);
    let line = song_line(true, "Artist - Title\n", "");
    assert!(line.visible);
    assert_eq!(line.icon.to_text(), "🎵");
    assert_eq!(line.text.to_text(), "Artist - Title");
}

#[test]
fn the_environment_falls_back_to_the_session() {
    assert_eq!(get_environment(Some("GNOME".to_string()), Some("gnome".to_string())), "GNOME");
    assert_eq!(get_environment(None, Some("sway".to_string())), "sway");
    assert_eq!(get_environment(None, None), "");
    assert_eq!(get_environment(Some(String::new()), Some("sway".to_string())), "");
}

#[test]
fn the_environment_line_is_capitalized_or_hidden() {
    assert!(!environment_line("").visible);
    let line = environment_line("gnome");
    assert!(line.visible);
    assert_eq!(line.icon.to_text(), "🖥️");
    assert_eq!(line.text.to_text(), "Gnome");
}

#[test]
fn the_hostname_is_configured_or_put_together() {
    assert_eq!(get_hostname(&Some("\"tower\"".to_string()), "me", "box"), "tower");
    assert_eq!(get_hostname(&Some("tower".to_string()), "me", "box"), "tower");
    assert_eq!(get_hostname(&None, "me", "box"), "me@box");
}
