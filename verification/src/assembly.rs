//! Fact assembly: the gathered facts become the lines of the box, in a
//! fixed order, and the box is laid out once.

use crate::clock::{
    clock_face_of, datetime_line, datetime_text, greeting_icon_of, greeting_line, greeting_text,
    Moment,
};
use crate::facts::{
    amount_line, environment_line, environment_line_of, kernel_line, packages_line, packages_line_of,
    release_line, release_name, song_line, song_line_of, updates_line, updates_line_of,
};
use crate::failure::Failure;
use crate::layout::{
    capped, line_views, plain_line, render, rendered, shown, too_wide, DisplayLine,
    LineView, INNER_WIDTH,
};
use crate::text::{text_views, without_trailing};
use crate::weather::{icon_of, weather_line, weather_text};
use vstd::prelude::*;
use vstd::string::*;

verus! {

/// Everything that was gathered about the host for one box.
#[derive(Clone, Debug)]
pub struct Facts {
    /// The name in the title.
    pub hostname: String,
    /// The name of the person to greet.
    pub name: String,
    /// The local time.
    pub moment: Moment,
    /// The configured time format.
    pub time_format: String,
    /// The configured unit system of the weather.
    pub units: String,
    /// The weather provider's icon code.
    pub weather_icon: String,
    /// The weather condition.
    pub weather_main: String,
    /// The temperature, written out.
    pub temperature: String,
    /// The name of the operating system's release.
    pub release: String,
    /// The kernel's release.
    pub kernel: String,
    /// The memory in use, written out.
    pub memory: String,
    /// The free disk space, written out.
    pub disk: String,
    /// The desktop environment, empty if there is none.
    pub environment: String,
    /// The number of pending updates, -1 if counting is disabled.
    pub updates: i32,
    /// The number of installed packages, -1 if counting is disabled.
    pub packages: i32,
    /// Whether the song line is switched on.
    pub song_enabled: bool,
    /// What the media player wrote to its standard output.
    pub song_stdout: String,
    /// What the media player wrote to its standard error.
    pub song_stderr: String,
}

/// The lines of the box for `facts`: greeting, date, weather, release,
/// kernel, memory, disk, environment, updates, packages and song, in this
/// order. The environment line is shown only if there is an environment,
/// the update and package lines only if counting is not disabled, the song
/// line only if something plays; the others always.
pub open spec fn lines_of(facts: Facts) -> Seq<LineView> {
    seq![
        plain_line(
            greeting_icon_of(facts.moment.hour_of()),
            greeting_text(facts.moment.hour_of(), facts.name@) + "!"@,
        ),
        plain_line(
            clock_face_of(facts.moment.hour_of()),
            datetime_text(facts.moment, facts.time_format@),
        ),
        plain_line(
            icon_of(facts.weather_icon@),
            weather_text(facts.units@, facts.weather_main@, facts.temperature@),
        ),
        capped("💻"@, release_name(facts.release@)),
        capped("🫀"@, without_trailing(facts.kernel@, '\n')),
        plain_line("🧠"@, facts.memory@ + " "@ + "Used"@),
        plain_line("💾"@, facts.disk@ + " "@ + "Free"@),
        environment_line_of(facts.environment@),
        updates_line_of(facts.updates as int),
        packages_line_of(facts.packages as int),
        song_line_of(facts.song_enabled, facts.song_stdout@, facts.song_stderr@),
    ]
}

/// Builds the lines of the box for `facts`. The release, kernel and song
/// lines, whose texts are cut to the budget, always fit the box.
pub fn assemble(facts: &Facts) -> (lines: Vec<DisplayLine>)
    ensures
        line_views(lines@) == lines_of(*facts),
        !too_wide(lines_of(*facts)[3], INNER_WIDTH as nat),
        !too_wide(lines_of(*facts)[4], INNER_WIDTH as nat),
        !too_wide(lines_of(*facts)[10], INNER_WIDTH as nat),
{
    let mut lines: Vec<DisplayLine> = Vec::new();
    lines.push(greeting_line(facts.moment.hour(), facts.name.as_str()));
    lines.push(datetime_line(&facts.moment, facts.time_format.as_str()));
    lines.push(
        weather_line(
            facts.units.as_str(),
            facts.weather_icon.as_str(),
            facts.weather_main.as_str(),
            facts.temperature.as_str(),
        ),
    );
    lines.push(release_line(facts.release.as_str()));
    lines.push(kernel_line(facts.kernel.as_str()));
    lines.push(amount_line("🧠", facts.memory.as_str(), "Used"));
    lines.push(amount_line("💾", facts.disk.as_str(), "Free"));
    lines.push(environment_line(facts.environment.as_str()));
    lines.push(updates_line(facts.updates));
    lines.push(packages_line(facts.packages));
    lines.push(
        song_line(facts.song_enabled, facts.song_stdout.as_str(), facts.song_stderr.as_str()),
    );
    assert(line_views(lines@) =~= lines_of(*facts));
    lines
}

/// Lays out the box for `facts`: the title, a row for each line that is
/// shown, the bottom border. Fails with `LineTooLong` if the title or a
/// line does not fit.
pub fn greet(facts: &Facts) -> (r: Result<Vec<String>, Failure>)
    ensures
        match r {
            Ok(rows) => rendered(facts.hostname@, lines_of(*facts)) == Ok::<
                Seq<Seq<char>>,
                Failure,
            >(text_views(rows@)) && rows@.len() == shown(lines_of(*facts)) + 2,
            Err(e) => rendered(facts.hostname@, lines_of(*facts)) == Err::<Seq<Seq<char>>, Failure>(
                e,
            ),
        },
{
    let lines = assemble(facts);
    render(facts.hostname.as_str(), &lines)
}

} // verus!
