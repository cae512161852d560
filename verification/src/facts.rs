//! The facts about the host, each turned into its line of the box.

use crate::layout::{
    capped, capped_line, hidden_line, plain_line, shorten, shortened, too_wide,
    DisplayLine, LineView, INNER_WIDTH, TEXT_BUDGET,
};
use crate::text::{
    decimal, push_decimal, same_text, trim_char, trim_end_char, without_surrounding,
    without_trailing,
};
use vstd::prelude::*;
use vstd::string::*;

verus! {

/// The upper-case form of a character, which may take several characters.
pub uninterp spec fn uppercase_of(c: char) -> Seq<char>;

/// The upper-case form of a character, by `char::to_uppercase` of the
/// standard library. Trusted: the result depends on the character alone.
#[verifier::external_body]
pub(crate) fn uppercase(c: char) -> (r: String)
    ensures
        r@ == uppercase_of(c),
{
    c.to_uppercase().collect()
}

/// A text with its first character replaced by `first`; an empty text
/// stays empty.
pub open spec fn with_first(s: Seq<char>, first: Seq<char>) -> Seq<char> {
    if s.len() == 0 {
        Seq::empty()
    } else {
        first + s.skip(1)
    }
}

/// A text with its first character in upper case.
pub open spec fn capitalized(s: Seq<char>) -> Seq<char> {
    if s.len() == 0 {
        Seq::empty()
    } else {
        with_first(s, uppercase_of(s[0]))
    }
}

/// Puts `first` in the place of the first character of `s`. An empty text
/// stays empty.
pub fn replace_first(s: &str, first: &str) -> (r: String)
    ensures
        r@ == with_first(s@, first@),
{
    let len: usize = s.unicode_len();
    if len == 0 {
        return String::new();
    }
    let mut out = String::from_str(first);
    out.append(s.substring_char(1, len));
    out
}

/// Puts the first character of `s` in upper case and leaves the rest as
/// it is. An empty text stays empty.
pub fn upper_first(s: String) -> (r: String)
    ensures
        r@ == capitalized(s@),
{
    let text = s.as_str();
    if text.unicode_len() == 0 {
        return String::new();
    }
    let first = uppercase(text.get_char(0));
    replace_first(text, first.as_str())
}

/// The icon that goes with a number of pending updates.
pub open spec fn updates_icon_of(count: int) -> Seq<char> {
    if count == 0 {
        "☑️"@
    } else if count == 1 {
        "1️⃣"@
    } else if count == 2 {
        "2️⃣"@
    } else if count == 3 {
        "3️⃣"@
    } else if count == 4 {
        "4️⃣"@
    } else if count == 5 {
        "5️⃣"@
    } else if count == 6 {
        "6️⃣"@
    } else if count == 7 {
        "7️⃣"@
    } else if count == 8 {
        "8️⃣"@
    } else if count == 9 {
        "9️⃣"@
    } else if count == 10 {
        "🔟"@
    } else {
        "‼️"@
    }
}

/// The words for a number of pending updates.
pub open spec fn updates_text_of(count: int) -> Seq<char> {
    if count == 0 {
        "Up to date"@
    } else if count == 1 {
        "1 update"@
    } else {
        decimal(count) + " updates"@
    }
}

/// What the update line says: `none` when counting is disabled, else the
/// icon and the words for the count.
pub open spec fn updates_words_of(count: int) -> Seq<char> {
    if count == -1 {
        "none"@
    } else {
        updates_icon_of(count) + " "@ + updates_text_of(count)
    }
}

/// The icon that goes with a number of pending updates.
pub fn updates_icon(count: i32) -> (icon: &'static str)
    ensures
        icon@ == updates_icon_of(count as int),
{
    if count == 0 {
        "☑️"
    } else if count == 1 {
        "1️⃣"
    } else if count == 2 {
        "2️⃣"
    } else if count == 3 {
        "3️⃣"
    } else if count == 4 {
        "4️⃣"
    } else if count == 5 {
        "5️⃣"
    } else if count == 6 {
        "6️⃣"
    } else if count == 7 {
        "7️⃣"
    } else if count == 8 {
        "8️⃣"
    } else if count == 9 {
        "9️⃣"
    } else if count == 10 {
        "🔟"
    } else {
        "‼️"
    }
}

/// The words for a number of pending updates.
pub fn updates_text(count: i32) -> (r: String)
    ensures
        r@ == updates_text_of(count as int),
{
    if count == 0 {
        String::from_str("Up to date")
    } else if count == 1 {
        String::from_str("1 update")
    } else {
        let mut out = String::new();
        push_decimal(&mut out, count as i64);
        out.append(" updates");
        out
    }
}

/// The update line as text, with the left border in front. A count of -1,
/// which stands for "disabled", gives the word `none`.
pub fn count_updates(count: i32) -> (r: String)
    ensures
        r@ == "│ "@ + updates_words_of(count as int),
{
    let mut out = String::from_str("│ ");
    if count == -1 {
        out.append("none");
    } else {
        out.append(updates_icon(count));
        out.append(" ");
        let words = updates_text(count);
        out.append(words.as_str());
        proof {
            assert("│ "@ + updates_icon_of(count as int) + " "@ + updates_text_of(count as int)
                =~= "│ "@ + (updates_icon_of(count as int) + " "@ + updates_text_of(
                count as int,
            )));
        }
    }
    out
}

/// What the update line holds: nothing when counting is disabled, else
/// the icon and the words for the count.
pub open spec fn updates_line_of(count: int) -> LineView {
    if count == -1 {
        hidden_line()
    } else {
        plain_line(updates_icon_of(count), updates_text_of(count))
    }
}

/// The update line of the box. It is not shown when counting is disabled.
pub fn updates_line(count: i32) -> (line: DisplayLine)
    ensures
        line@ == updates_line_of(count as int),
        line@.wf(),
{
    if count == -1 {
        DisplayLine::hidden()
    } else {
        let words = updates_text(count);
        DisplayLine::new(updates_icon(count), words.as_str())
    }
}

/// The words for a number of installed packages.
pub open spec fn packages_text_of(count: int) -> Seq<char> {
    if count == 0 {
        "No packages"@
    } else if count == 1 {
        "1 package"@
    } else {
        decimal(count) + " packages"@
    }
}

/// The words for a number of installed packages.
pub fn packages_text(count: i32) -> (r: String)
    ensures
        r@ == packages_text_of(count as int),
{
    if count == 0 {
        String::from_str("No packages")
    } else if count == 1 {
        String::from_str("1 package")
    } else {
        let mut out = String::new();
        push_decimal(&mut out, count as i64);
        out.append(" packages");
        out
    }
}

/// What the package line holds: nothing when counting is disabled, else
/// the box icon and the words for the count.
pub open spec fn packages_line_of(count: int) -> LineView {
    if count == -1 {
        hidden_line()
    } else {
        plain_line("📦"@, packages_text_of(count))
    }
}

/// The package line of the box. It is not shown when counting is disabled.
pub fn packages_line(count: i32) -> (line: DisplayLine)
    ensures
        line@ == packages_line_of(count as int),
        line@.wf(),
{
    if count == -1 {
        DisplayLine::hidden()
    } else {
        let words = packages_text(count);
        DisplayLine::new("📦", words.as_str())
    }
}

/// The name of the operating system's release without the double quotes
/// around it and without line feeds after it.
pub open spec fn release_name(raw: Seq<char>) -> Seq<char> {
    without_trailing(without_trailing(without_surrounding(raw, '"'), '\n'), '"')
}

fn clean_release<'a>(raw: &'a str) -> (r: &'a str)
    ensures
        r@ == release_name(raw@),
{
    trim_end_char(trim_end_char(trim_char(raw, '"'), '\n'), '"')
}

/// The release's name as the box shows it: cleaned, and cut to the budget.
pub fn get_release(pretty_name: &str) -> (r: String)
    ensures
        r@ == shortened(release_name(pretty_name@), TEXT_BUDGET as nat),
{
    shorten(clean_release(pretty_name), TEXT_BUDGET)
}

/// The release line of the box. It always fits.
pub fn release_line(pretty_name: &str) -> (line: DisplayLine)
    ensures
        line@ == capped("💻"@, release_name(pretty_name@)),
        line@.wf(),
        !too_wide(line@, INNER_WIDTH as nat),
{
    proof {
        reveal_strlit("💻");
    }
    capped_line("💻", clean_release(pretty_name))
}

/// The kernel's release as the box shows it: without line feeds after it,
/// and cut to the budget.
pub fn get_kernel(release: &str) -> (r: String)
    ensures
        r@ == shortened(without_trailing(release@, '\n'), TEXT_BUDGET as nat),
{
    shorten(trim_end_char(release, '\n'), TEXT_BUDGET)
}

/// The kernel line of the box. It always fits.
pub fn kernel_line(release: &str) -> (line: DisplayLine)
    ensures
        line@ == capped("🫀"@, without_trailing(release@, '\n')),
        line@.wf(),
        !too_wide(line@, INNER_WIDTH as nat),
{
    proof {
        reveal_strlit("🫀");
    }
    capped_line("🫀", trim_end_char(release, '\n'))
}

/// Whether the media player's error output says that no player runs: the
/// words `No players found`, with a small or a capital first letter, and
/// any line feeds after them.
pub open spec fn no_players(stderr: Seq<char>) -> bool {
    let words = without_trailing(stderr, '\n');
    words == "No players found"@ || words == "no players found"@
}

/// What plays, as the box shows it. Nothing when the song line is
/// switched off or no player runs; else the player's output without line
/// feeds around it, cut to the budget.
pub open spec fn song_of(enabled: bool, stdout: Seq<char>, stderr: Seq<char>) -> Seq<char> {
    if !enabled || no_players(stderr) {
        Seq::empty()
    } else {
        shortened(without_surrounding(stdout, '\n'), TEXT_BUDGET as nat)
    }
}

fn is_silent(enabled: bool, stderr: &str) -> (r: bool)
    ensures
        r == (!enabled || no_players(stderr@)),
{
    if !enabled {
        return true;
    }
    let words = trim_end_char(stderr, '\n');
    same_text(words, "No players found") || same_text(words, "no players found")
}

/// What plays, from the media player's answer. See `song_of`.
pub fn get_song(enabled: bool, stdout: &str, stderr: &str) -> (r: String)
    ensures
        r@ == song_of(enabled, stdout@, stderr@),
{
    if is_silent(enabled, stderr) {
        String::new()
    } else {
        shorten(trim_char(stdout, '\n'), TEXT_BUDGET)
    }
}

/// What the song line holds: nothing when the line is switched off, no
/// player runs or the player names nothing; else the note icon and the
/// player's output, without line feeds around it and cut to the budget.
pub open spec fn song_line_of(enabled: bool, stdout: Seq<char>, stderr: Seq<char>) -> LineView {
    if !enabled || no_players(stderr) || without_surrounding(stdout, '\n').len() == 0 {
        hidden_line()
    } else {
        capped("🎵"@, without_surrounding(stdout, '\n'))
    }
}

/// The song line of the box. It is shown only if something plays, and
/// then it always fits.
pub fn song_line(enabled: bool, stdout: &str, stderr: &str) -> (line: DisplayLine)
    ensures
        line@ == song_line_of(enabled, stdout@, stderr@),
        line@.wf(),
        !too_wide(line@, INNER_WIDTH as nat),
{
    if is_silent(enabled, stderr) {
        return DisplayLine::hidden();
    }
    let words = trim_char(stdout, '\n');
    if words.unicode_len() == 0 {
        return DisplayLine::hidden();
    }
    proof {
        reveal_strlit("🎵");
    }
    capped_line("🎵", words)
}

/// The desktop environment: the current desktop if the session names
/// one, else the session's desktop, else nothing.
pub fn get_environment(current: Option<String>, session: Option<String>) -> (r: String)
    ensures
        r@ == match (current, session) {
            (Some(c), _) => c@,
            (None, Some(s)) => s@,
            (None, None) => Seq::<char>::empty(),
        },
{
    match current {
        Some(c) => c,
        None => match session {
            Some(s) => s,
            None => String::new(),
        },
    }
}

/// What the environment line holds: the screen icon and the
/// environment's name with a capital first letter. It is not shown when
/// there is no name.
pub open spec fn environment_line_of(environment: Seq<char>) -> LineView {
    LineView { visible: environment.len() > 0, ..plain_line("🖥️"@, capitalized(environment)) }
}

/// The environment line of the box.
pub fn environment_line(environment: &str) -> (line: DisplayLine)
    ensures
        line@ == environment_line_of(environment@),
        line@.wf(),
{
    let name = upper_first(String::from_str(environment));
    let mut line = DisplayLine::new("🖥️", name.as_str());
    line.visible = environment.unicode_len() > 0;
    line
}

/// The name in the title of the box: the configured host name without
/// double quotes around it, or the user and the host joined by `@`.
pub fn get_hostname(configured: &Option<String>, user: &str, host: &str) -> (r: String)
    ensures
        r@ == match *configured {
            Some(name) => without_surrounding(name@, '"'),
            None => user@ + "@"@ + host@,
        },
{
    match configured {
        Some(name) => String::from_str(trim_char(name.as_str(), '"')),
        None => {
            let mut out = String::from_str(user);
            out.append("@");
            out.append(host);
            out
        },
    }
}

/// A line that states an amount: the amount, a space and a word.
pub fn amount_line(icon: &str, amount: &str, word: &str) -> (line: DisplayLine)
    ensures
        line@ == plain_line(icon@, amount@ + " "@ + word@),
        line@.wf(),
{
    let mut words = String::from_str(amount);
    words.append(" ");
    words.append(word);
    DisplayLine::new(icon, words.as_str())
}

} // verus!
