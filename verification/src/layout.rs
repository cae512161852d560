//! The fixed-width box: rows padded to one width, measured in cells (one for
//! each grapheme cluster), between a top border that carries a title and a
//! bottom border.

use crate::failure::Failure;
use crate::segment::{
    ellipsis_cells, grapheme_clusters, grapheme_len, joined, lemma_joined_concat,
    lemma_joined_len, lemma_joined_push, shortened_cells, Cells,
};
use crate::text::{push_repeated, repeated, text_views};
use vstd::prelude::*;
use vstd::string::*;

verus! {

/// The width to which every row is padded before its right border.
pub const INNER_WIDTH: usize = 45;

/// The width to which the top border is filled before its corner. It is
/// larger than `INNER_WIDTH` by the colour codes around the title, which take
/// no room on the screen, and by the second column that an icon takes.
pub const TOP_WIDTH: usize = 55;

/// The number of cells that a text keeps when it is cut short.
pub const TEXT_BUDGET: usize = 37;

/// `n` cells that each hold `fill`.
pub open spec fn fill_cells(fill: Seq<char>, n: nat) -> Seq<Seq<char>> {
    Seq::new(n, |i: int| fill)
}

/// Cells with fill cells up to `target` and one closing cell. Cells that
/// already number `target` or more get the closing cell alone.
pub open spec fn padded_cells(
    cells: Seq<Seq<char>>,
    target: nat,
    fill: Seq<char>,
    cap: Seq<char>,
) -> Seq<Seq<char>> {
    cells + fill_cells(fill, (target - cells.len()) as nat) + seq![cap]
}

/// A text with `fill` up to `target` grapheme clusters and a closing glyph.
pub open spec fn padded(text: Seq<char>, target: nat, fill: Seq<char>, cap: Seq<char>) -> Seq<
    char,
> {
    text + repeated(fill, (target - grapheme_len(text)) as nat) + cap
}

/// A row of the box: the text, spaces up to the inner width, the right border.
pub open spec fn row_of(text: Seq<char>) -> Seq<char> {
    padded(text, INNER_WIDTH as nat, seq![' '], seq!['│'])
}

/// The top border: the text, rules up to the top width, the corner.
pub open spec fn top_of(text: Seq<char>) -> Seq<char> {
    padded(text, TOP_WIDTH as nat, seq!['─'], seq!['╮'])
}

/// What the top border starts with: the corner, one rule, and the title in green.
pub open spec fn title_text(title: Seq<char>) -> Seq<char> {
    "╭─\x1b[32m"@ + title + "\x1b[0m"@
}

/// The bottom border for rows of the given inner width.
pub open spec fn bottom_of(inner: nat) -> Seq<char> {
    seq!['╰'] + repeated(seq!['─'], inner) + seq!['╯']
}

/// Fill cells spell the fill glyph once for each cell.
pub proof fn lemma_fill_text(fill: Seq<char>, n: nat)
    ensures
        joined(fill_cells(fill, n)) == repeated(fill, n),
    decreases n,
{
    if n > 0 {
        lemma_fill_text(fill, (n - 1) as nat);
        assert(fill_cells(fill, n).drop_last() =~= fill_cells(fill, (n - 1) as nat));
    }
}

/// Cells that fit their target make, once padded, exactly `target + 1`
/// cells, and spell their own text, the fill and the closing glyph.
pub proof fn lemma_padded_cells(
    cells: Seq<Seq<char>>,
    target: nat,
    fill: Seq<char>,
    cap: Seq<char>,
)
    requires
        cells.len() <= target,
    ensures
        padded_cells(cells, target, fill, cap).len() == target + 1,
        joined(padded_cells(cells, target, fill, cap)) == joined(cells) + repeated(
            fill,
            (target - cells.len()) as nat,
        ) + cap,
{
    let gap = (target - cells.len()) as nat;
    lemma_fill_text(fill, gap);
    lemma_joined_concat(cells, fill_cells(fill, gap));
    lemma_joined_push(cells + fill_cells(fill, gap), cap);
    assert(padded_cells(cells, target, fill, cap) =~= (cells + fill_cells(fill, gap)).push(cap));
}

/// Pads `cells` with `fill` cells up to `target` and closes them with `cap`.
/// Cells that number more than `target` are refused with `LineTooLong`.
pub fn pad_cells(cells: &Cells, target: usize, fill: &str, cap: &str) -> (r: Result<
    Cells,
    Failure,
>)
    ensures
        cells@.len() <= target ==> r is Ok && r->Ok_0@ == padded_cells(
            cells@,
            target as nat,
            fill@,
            cap@,
        ) && r->Ok_0@.len() == target + 1,
        cells@.len() > target ==> r == Err::<Cells, Failure>(Failure::LineTooLong),
{
    let width: usize = cells.width();
    if width > target {
        return Err(Failure::LineTooLong);
    }
    let mut row = Cells::new();
    row.extend(cells);
    row.push_glyphs(fill, target - width);
    row.push_glyph(cap);
    assert(row@ =~= padded_cells(cells@, target as nat, fill@, cap@));
    Ok(row)
}

/// Pads a row's text with spaces to `INNER_WIDTH` grapheme clusters and adds
/// the right border. A wider text is refused with `LineTooLong`, never cut or
/// given a negative padding. The row that comes out is made of
/// `INNER_WIDTH + 1` cells: the text's clusters, the spaces and the border.
pub fn calc_whitespace(text: String) -> (r: Result<String, Failure>)
    ensures
        grapheme_len(text@) <= INNER_WIDTH ==> r is Ok && r->Ok_0@ == row_of(text@),
        grapheme_len(text@) > INNER_WIDTH ==> r == Err::<String, Failure>(Failure::LineTooLong),
        r is Ok ==> r->Ok_0@ == joined(
            padded_cells(grapheme_clusters(text@), INNER_WIDTH as nat, seq![' '], seq!['│']),
        ) && padded_cells(
            grapheme_clusters(text@),
            INNER_WIDTH as nat,
            seq![' '],
            seq!['│'],
        ).len() == INNER_WIDTH + 1,
{
    let cells = Cells::measure(text.as_str());
    proof {
        reveal_strlit(" ");
        reveal_strlit("│");
        assert(" "@ =~= seq![' ']);
        assert("│"@ =~= seq!['│']);
        if cells@.len() <= INNER_WIDTH {
            lemma_padded_cells(cells@, INNER_WIDTH as nat, seq![' '], seq!['│']);
        }
    }
    match pad_cells(&cells, INNER_WIDTH, " ", "│") {
        Ok(row) => Ok(row.to_text()),
        Err(e) => Err(e),
    }
}

/// Fills the top border's text with rules to `TOP_WIDTH` grapheme clusters
/// and adds the top-right corner. A wider text is refused with `LineTooLong`.
/// The border that comes out is made of `TOP_WIDTH + 1` cells.
pub fn calc_with_hostname(text: String) -> (r: Result<String, Failure>)
    ensures
        grapheme_len(text@) <= TOP_WIDTH ==> r is Ok && r->Ok_0@ == top_of(text@),
        grapheme_len(text@) > TOP_WIDTH ==> r == Err::<String, Failure>(Failure::LineTooLong),
        r is Ok ==> r->Ok_0@ == joined(
            padded_cells(grapheme_clusters(text@), TOP_WIDTH as nat, seq!['─'], seq!['╮']),
        ) && padded_cells(
            grapheme_clusters(text@),
            TOP_WIDTH as nat,
            seq!['─'],
            seq!['╮'],
        ).len() == TOP_WIDTH + 1,
{
    let cells = Cells::measure(text.as_str());
    proof {
        reveal_strlit("─");
        reveal_strlit("╮");
        assert("─"@ =~= seq!['─']);
        assert("╮"@ =~= seq!['╮']);
        if cells@.len() <= TOP_WIDTH {
            lemma_padded_cells(cells@, TOP_WIDTH as nat, seq!['─'], seq!['╮']);
        }
    }
    match pad_cells(&cells, TOP_WIDTH, "─", "╮") {
        Ok(row) => Ok(row.to_text()),
        Err(e) => Err(e),
    }
}

/// What a line of the box holds: the cells of its icon and of its text,
/// and whether the line is shown.
pub struct LineView {
    pub icon: Seq<Seq<char>>,
    pub text: Seq<Seq<char>>,
    pub visible: bool,
}

impl LineView {
    /// The cells of the line before padding: the left border, a space, the
    /// icon, a space, the text.
    pub open spec fn cells(self) -> Seq<Seq<char>> {
        seq![seq!['│'], seq![' ']] + self.icon + seq![seq![' ']] + self.text
    }

    /// The line as text before padding.
    pub open spec fn content(self) -> Seq<char> {
        seq!['│', ' '] + joined(self.icon) + seq![' '] + joined(self.text)
    }

    /// Neither the icon nor the text holds an empty cell.
    pub open spec fn wf(self) -> bool {
        &&& forall|i: int| 0 <= i < self.icon.len() ==> (#[trigger] self.icon[i]).len() > 0
        &&& forall|i: int| 0 <= i < self.text.len() ==> (#[trigger] self.text[i]).len() > 0
    }
}

/// A line that is shown, with the given icon and text.
pub open spec fn plain_line(icon: Seq<char>, text: Seq<char>) -> LineView {
    LineView { icon: grapheme_clusters(icon), text: grapheme_clusters(text), visible: true }
}

/// A line with the given icon and text that is shown unless the text is empty.
pub open spec fn optional_line(icon: Seq<char>, text: Seq<char>) -> LineView {
    LineView {
        icon: grapheme_clusters(icon),
        text: grapheme_clusters(text),
        visible: text.len() > 0,
    }
}

/// A line that is shown, with the given icon and the text cut to `TEXT_BUDGET` cells.
pub open spec fn capped(icon: Seq<char>, text: Seq<char>) -> LineView {
    LineView {
        icon: grapheme_clusters(icon),
        text: shortened_cells(grapheme_clusters(text), TEXT_BUDGET as nat),
        visible: true,
    }
}

/// The line that holds nothing and is not shown.
pub open spec fn hidden_line() -> LineView {
    LineView { icon: Seq::empty(), text: Seq::empty(), visible: false }
}

/// One line of the box: an icon, a text, and whether the line is shown.
#[derive(Clone, Debug)]
pub struct DisplayLine {
    pub icon: Cells,
    pub text: Cells,
    pub visible: bool,
}

impl View for DisplayLine {
    type V = LineView;

    open spec fn view(&self) -> LineView {
        LineView { icon: self.icon@, text: self.text@, visible: self.visible }
    }
}

/// What each line of a list holds.
pub open spec fn line_views(lines: Seq<DisplayLine>) -> Seq<LineView> {
    Seq::new(lines.len(), |i: int| lines[i]@)
}

impl DisplayLine {
    /// A line that is always shown.
    pub fn new(icon: &str, text: &str) -> (line: DisplayLine)
        ensures
            line@ == plain_line(icon@, text@),
            line@.content() == seq!['│', ' '] + icon@ + seq![' '] + text@,
            line@.wf(),
    {
        DisplayLine { icon: Cells::measure(icon), text: Cells::measure(text), visible: true }
    }

    /// A line that is shown unless its text is empty.
    pub fn unless_empty(icon: &str, text: &str) -> (line: DisplayLine)
        ensures
            line@ == optional_line(icon@, text@),
            line@.content() == seq!['│', ' '] + icon@ + seq![' '] + text@,
            line@.wf(),
    {
        let visible = text.unicode_len() > 0;
        DisplayLine { icon: Cells::measure(icon), text: Cells::measure(text), visible }
    }

    /// A line that holds nothing and is never shown.
    pub fn hidden() -> (line: DisplayLine)
        ensures
            line@ == hidden_line(),
            line@.wf(),
    {
        DisplayLine { icon: Cells::new(), text: Cells::new(), visible: false }
    }

    /// The cells of the line before padding.
    pub fn row_cells(&self) -> (c: Cells)
        ensures
            c@ == self@.cells(),
            c.text() == self@.content(),
    {
        let mut c = Cells::new();
        proof {
            reveal_strlit("│");
            reveal_strlit(" ");
            assert("│"@ =~= seq!['│']);
            assert(" "@ =~= seq![' ']);
        }
        c.push_glyph("│");
        c.push_glyph(" ");
        c.extend(&self.icon);
        c.push_glyph(" ");
        c.extend(&self.text);
        proof {
            let head = seq![seq!['│'], seq![' ']];
            assert(c@ =~= self@.cells());
            assert(head =~= Seq::<Seq<char>>::empty().push(seq!['│']).push(seq![' ']));
            lemma_joined_push(Seq::<Seq<char>>::empty(), seq!['│']);
            lemma_joined_push(Seq::<Seq<char>>::empty().push(seq!['│']), seq![' ']);
            assert(joined(head) =~= seq!['│', ' ']);
            lemma_joined_concat(head, self.icon@);
            lemma_joined_push(head + self.icon@, seq![' ']);
            assert((head + self.icon@).push(seq![' ']) =~= head + self.icon@ + seq![seq![' ']]);
            lemma_joined_concat(head + self.icon@ + seq![seq![' ']], self.text@);
        }
        c
    }
}

/// A text cut to a budget of grapheme clusters: a longer text keeps its
/// first `budget` clusters and gets an ellipsis; others stay whole.
pub open spec fn shortened(text: Seq<char>, budget: nat) -> Seq<char> {
    joined(shortened_cells(grapheme_clusters(text), budget))
}

/// The three cells of the ellipsis spell three full stops.
pub proof fn lemma_ellipsis_text(kept: Seq<Seq<char>>)
    ensures
        joined(kept + ellipsis_cells()) == joined(kept) + seq!['.', '.', '.'],
{
    let dot = seq!['.'];
    lemma_joined_push(kept, dot);
    lemma_joined_push(kept.push(dot), dot);
    lemma_joined_push(kept.push(dot).push(dot), dot);
    assert(kept + ellipsis_cells() =~= kept.push(dot).push(dot).push(dot));
    assert(joined(kept) + dot + dot + dot =~= joined(kept) + seq!['.', '.', '.']);
}

/// Cutting to a budget: cells beyond the budget become exactly `budget`
/// cells from the front followed by the three cells of the ellipsis,
/// `budget + 3` in all; cells within the budget are left alone.
pub proof fn lemma_shortened_width(cells: Seq<Seq<char>>, budget: nat)
    ensures
        cells.len() > budget ==> {
            &&& shortened_cells(cells, budget).len() == budget + 3
            &&& shortened_cells(cells, budget).take(budget as int) == cells.take(budget as int)
            &&& shortened_cells(cells, budget).skip(budget as int) == ellipsis_cells()
        },
        cells.len() <= budget ==> shortened_cells(cells, budget) == cells,
{
    if cells.len() > budget {
        let cut = shortened_cells(cells, budget);
        assert(cut.take(budget as int) =~= cells.take(budget as int));
        assert(cut.skip(budget as int) =~= ellipsis_cells());
    }
}

/// A line whose text was cut to `TEXT_BUDGET` cells, behind an icon of at
/// most two cells, is never too wide for the box.
pub proof fn lemma_capped_fits(line: LineView, cells: Seq<Seq<char>>)
    requires
        line.icon.len() <= 2,
        line.text == shortened_cells(cells, TEXT_BUDGET as nat),
    ensures
        line.cells().len() <= INNER_WIDTH,
        !too_wide(line, INNER_WIDTH as nat),
{
    lemma_shortened_width(cells, TEXT_BUDGET as nat);
}

/// Cuts `text` to `budget` grapheme clusters. A text within the budget
/// comes back as it is; a longer one keeps its first `budget` clusters,
/// followed by `...`.
pub fn shorten(text: &str, budget: usize) -> (r: String)
    ensures
        r@ == shortened(text@, budget as nat),
        grapheme_len(text@) <= budget ==> r@ == text@,
        grapheme_len(text@) > budget ==> r@ == joined(
            grapheme_clusters(text@).take(budget as int),
        ) + seq!['.', '.', '.'],
{
    let cells = Cells::measure(text);
    let cut = cells.shortened(budget);
    proof {
        if cells@.len() > budget {
            lemma_ellipsis_text(cells@.take(budget as int));
        }
    }
    cut.to_text()
}

/// A line whose text is cut to `TEXT_BUDGET` cells before it is laid out.
/// With an icon of at most two characters such a line always fits the box.
pub fn capped_line(icon: &str, text: &str) -> (line: DisplayLine)
    ensures
        line@ == capped(icon@, text@),
        joined(line@.icon) == icon@,
        joined(line@.text) == shortened(text@, TEXT_BUDGET as nat),
        line@.wf(),
        icon@.len() <= 2 ==> !too_wide(line@, INNER_WIDTH as nat),
{
    let icon_cells = Cells::measure(icon);
    let text_cells = Cells::measure(text).shortened(TEXT_BUDGET);
    proof {
        lemma_joined_len(icon_cells@);
    }
    DisplayLine { icon: icon_cells, text: text_cells, visible: true }
}

/// Whether a line is shown and wider than the box allows.
pub open spec fn too_wide(line: LineView, inner: nat) -> bool {
    line.visible && line.cells().len() > inner
}

/// The cells of a line's row: the line's own, spaces up to the inner width,
/// the right border.
pub open spec fn row_cells_of(line: LineView, inner: nat) -> Seq<Seq<char>> {
    padded_cells(line.cells(), inner, seq![' '], seq!['│'])
}

/// The rows of the lines that are shown, in the order of the lines.
pub open spec fn rows_of(lines: Seq<LineView>, inner: nat) -> Seq<Seq<char>>
    decreases lines.len(),
{
    if lines.len() == 0 {
        Seq::empty()
    } else {
        let before = rows_of(lines.drop_last(), inner);
        if lines.last().visible {
            before.push(joined(row_cells_of(lines.last(), inner)))
        } else {
            before
        }
    }
}

/// The rows of a box of the given inner width, or `LineTooLong` if a line
/// that is shown does not fit.
pub open spec fn framed(lines: Seq<LineView>, inner: nat) -> Result<Seq<Seq<char>>, Failure> {
    if exists|i: int| 0 <= i < lines.len() && too_wide(#[trigger] lines[i], inner) {
        Err(Failure::LineTooLong)
    } else {
        Ok(rows_of(lines, inner))
    }
}

/// How many of the lines are shown.
pub open spec fn shown(lines: Seq<LineView>) -> nat
    decreases lines.len(),
{
    if lines.len() == 0 {
        0
    } else {
        shown(lines.drop_last()) + if lines.last().visible {
            1nat
        } else {
            0nat
        }
    }
}

/// There is one row for each line that is shown.
pub proof fn lemma_rows_count(lines: Seq<LineView>, inner: nat)
    ensures
        rows_of(lines, inner).len() == shown(lines),
    decreases lines.len(),
{
    if lines.len() > 0 {
        lemma_rows_count(lines.drop_last(), inner);
    }
}

/// In a box that could be laid out, the row of every line that is shown is
/// made of exactly `inner + 1` cells (the left border and the content, the
/// padding, the right border), whatever the line holds, and spells the
/// line's content, the spaces and the border.
pub proof fn lemma_rows_share_width(lines: Seq<LineView>, inner: nat, i: int)
    requires
        framed(lines, inner) is Ok,
        0 <= i < lines.len(),
        lines[i].visible,
    ensures
        row_cells_of(lines[i], inner).len() == inner + 1,
        joined(row_cells_of(lines[i], inner)) == joined(lines[i].cells()) + repeated(
            seq![' '],
            (inner - lines[i].cells().len()) as nat,
        ) + seq!['│'],
{
    assert(!too_wide(lines[i], inner));
    lemma_padded_cells(lines[i].cells(), inner, seq![' '], seq!['│']);
}

/// Lays the lines out as the rows of a box of inner width `inner_width`.
/// Lines that are not shown give no row. Each row is the line's content,
/// padded with spaces to `inner_width` cells, and the right border. If a
/// line that is shown is wider than `inner_width`, nothing is laid out and
/// `LineTooLong` is returned.
pub fn frame(lines: &Vec<DisplayLine>, inner_width: usize) -> (r: Result<Vec<String>, Failure>)
    ensures
        match r {
            Ok(rows) => framed(line_views(lines@), inner_width as nat) == Ok::<
                Seq<Seq<char>>,
                Failure,
            >(text_views(rows@)) && rows@.len() == shown(line_views(lines@)),
            Err(e) => framed(line_views(lines@), inner_width as nat) == Err::<
                Seq<Seq<char>>,
                Failure,
            >(e),
        },
{
    let ghost views = line_views(lines@);
    let mut rows: Vec<String> = Vec::new();
    let n: usize = lines.len();
    let mut i: usize = 0;
    assert(text_views(rows@) =~= rows_of(views.take(0), inner_width as nat));
    while i < n
        invariant
            i <= n,
            n == lines@.len(),
            views == line_views(lines@),
            text_views(rows@) == rows_of(views.take(i as int), inner_width as nat),
            forall|k: int| 0 <= k < i ==> !too_wide(#[trigger] views[k], inner_width as nat),
        decreases n - i,
    {
        let line: &DisplayLine = &lines[i];
        proof {
            assert(views.take(i + 1).drop_last() =~= views.take(i as int));
            assert(views.take(i + 1).last() == views[i as int]);
            assert(views[i as int] == line@);
            reveal_strlit("│");
            reveal_strlit(" ");
            assert("│"@ =~= seq!['│']);
            assert(" "@ =~= seq![' ']);
        }
        if line.visible {
            let cells = line.row_cells();
            match pad_cells(&cells, inner_width, " ", "│") {
                Ok(row) => {
                    let ghost before = text_views(rows@);
                    let text = row.to_text();
                    rows.push(text);
                    assert(text_views(rows@) =~= before.push(text@));
                },
                Err(e) => {
                    assert(too_wide(views[i as int], inner_width as nat));
                    return Err(e);
                },
            }
        }
        i = i + 1;
    }
    proof {
        assert(views.take(n as int) =~= views);
        lemma_rows_count(views, inner_width as nat);
    }
    Ok(rows)
}

/// The bottom border of a box of inner width `inner_width`.
pub fn bottom_border(inner_width: usize) -> (r: String)
    ensures
        r@ == bottom_of(inner_width as nat),
{
    let mut out = String::from_str("╰");
    push_repeated(&mut out, "─", inner_width);
    out.append("╯");
    proof {
        reveal_strlit("╰");
        reveal_strlit("─");
        reveal_strlit("╯");
        assert("╰"@ =~= seq!['╰']);
        assert("─"@ =~= seq!['─']);
        assert("╯"@ =~= seq!['╯']);
    }
    out
}

/// The top border of the box, with `hostname` as its title in green.
pub fn top_border(hostname: &str) -> (r: Result<String, Failure>)
    ensures
        grapheme_len(title_text(hostname@)) <= TOP_WIDTH ==> r is Ok && r->Ok_0@ == top_of(
            title_text(hostname@),
        ),
        grapheme_len(title_text(hostname@)) > TOP_WIDTH ==> r == Err::<String, Failure>(
            Failure::LineTooLong,
        ),
{
    let mut title = String::from_str("╭─\x1b[32m");
    title.append(hostname);
    title.append("\x1b[0m");
    calc_with_hostname(title)
}

/// The whole box, or `LineTooLong` if the title or a line does not fit.
pub open spec fn rendered(hostname: Seq<char>, lines: Seq<LineView>) -> Result<
    Seq<Seq<char>>,
    Failure,
> {
    if grapheme_len(title_text(hostname)) > TOP_WIDTH {
        Err(Failure::LineTooLong)
    } else {
        match framed(lines, INNER_WIDTH as nat) {
            Ok(rows) => Ok(
                seq![top_of(title_text(hostname))] + rows + seq![bottom_of(INNER_WIDTH as nat)],
            ),
            Err(e) => Err(e),
        }
    }
}

/// Lays out the whole box: the top border with `hostname`, a row for each
/// line that is shown, the bottom border.
pub fn render(hostname: &str, lines: &Vec<DisplayLine>) -> (r: Result<Vec<String>, Failure>)
    ensures
        match r {
            Ok(rows) => rendered(hostname@, line_views(lines@)) == Ok::<Seq<Seq<char>>, Failure>(
                text_views(rows@),
            ) && rows@.len() == shown(line_views(lines@)) + 2,
            Err(e) => rendered(hostname@, line_views(lines@)) == Err::<Seq<Seq<char>>, Failure>(e),
        },
{
    let top = match top_border(hostname) {
        Ok(top) => top,
        Err(e) => {
            return Err(e);
        },
    };
    let mut body = match frame(lines, INNER_WIDTH) {
        Ok(body) => body,
        Err(e) => {
            return Err(e);
        },
    };
    let ghost middle = text_views(body@);
    let ghost top_view = top@;
    let mut rows: Vec<String> = Vec::new();
    rows.push(top);
    rows.append(&mut body);
    let bottom = bottom_border(INNER_WIDTH);
    rows.push(bottom);
    assert(text_views(rows@) =~= seq![top_view] + middle + seq![bottom_of(INNER_WIDTH as nat)]);
    Ok(rows)
}

} // verus!
