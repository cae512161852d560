//! Text measured in grapheme clusters, the characters a reader perceives.

use crate::text::text_views;
use unicode_segmentation::UnicodeSegmentation;
use vstd::prelude::*;
use vstd::string::*;

verus! {

/// The extended grapheme clusters of a text, in order, as the Unicode
/// segmentation rules cut them.
pub uninterp spec fn grapheme_clusters(s: Seq<char>) -> Seq<Seq<char>>;

/// The width of a text: the number of its grapheme clusters.
pub open spec fn grapheme_len(s: Seq<char>) -> nat {
    grapheme_clusters(s).len()
}

/// The pieces of a list written one after the other.
pub open spec fn joined(parts: Seq<Seq<char>>) -> Seq<char>
    decreases parts.len(),
{
    if parts.len() == 0 {
        Seq::empty()
    } else {
        joined(parts.drop_last()) + parts.last()
    }
}

/// Pieces that each hold a character make a text at least as long as their number.
pub proof fn lemma_joined_len(parts: Seq<Seq<char>>)
    requires
        forall|i: int| 0 <= i < parts.len() ==> parts[i].len() > 0,
    ensures
        joined(parts).len() >= parts.len(),
    decreases parts.len(),
{
    if parts.len() > 0 {
        let before = parts.drop_last();
        assert forall|i: int| 0 <= i < before.len() implies before[i].len() > 0 by {
            assert(before[i] == parts[i]);
        }
        lemma_joined_len(before);
    }
}

/// Cuts a text into its extended grapheme clusters by `graphemes(true)` of
/// `unicode_segmentation`. Trusted: the clusters returned are the ones named
/// by `grapheme_clusters`; each is a non-empty slice of the text, and the
/// slices follow one another from its first byte to its last, so that
/// written in a row they give the text back.
#[verifier::external_body]
pub(crate) fn clusters_of(s: &str) -> (cells: Vec<String>)
    ensures
        text_views(cells@) == grapheme_clusters(s@),
        joined(text_views(cells@)) == s@,
        forall|i: int| 0 <= i < cells.len() ==> (#[trigger] cells[i])@.len() > 0,
{
    s.graphemes(true).map(|g| g.to_string()).collect()
}

/// The width of `s` in grapheme clusters. It never exceeds the number of
/// characters.
pub fn grapheme_count(s: &str) -> (n: usize)
    ensures
        n == grapheme_len(s@),
        n <= s@.len(),
{
    let cells = clusters_of(s);
    proof {
        let parts = text_views(cells@);
        assert forall|i: int| 0 <= i < parts.len() implies parts[i].len() > 0 by {
            assert(cells[i]@.len() > 0);
        }
        lemma_joined_len(parts);
    }
    cells.len()
}

/// Writing a longer list out is writing its front, then its back.
pub proof fn lemma_joined_concat(a: Seq<Seq<char>>, b: Seq<Seq<char>>)
    ensures
        joined(a + b) == joined(a) + joined(b),
    decreases b.len(),
{
    if b.len() == 0 {
        assert(a + b =~= a);
        assert(joined(a) + joined(b) =~= joined(a));
    } else {
        lemma_joined_concat(a, b.drop_last());
        assert((a + b).drop_last() =~= a + b.drop_last());
        assert((a + b).last() == b.last());
        assert(joined(a) + joined(b.drop_last()) + b.last() =~= joined(a) + (joined(b.drop_last())
            + b.last()));
    }
}

/// Writing out a list with one more piece adds that piece at the end.
pub proof fn lemma_joined_push(a: Seq<Seq<char>>, piece: Seq<char>)
    ensures
        joined(a.push(piece)) == joined(a) + piece,
{
    assert(a.push(piece).drop_last() =~= a);
}

/// The three cells of the mark that stands for what was cut off.
pub open spec fn ellipsis_cells() -> Seq<Seq<char>> {
    seq![seq!['.'], seq!['.'], seq!['.']]
}

/// A list of cells cut to a budget: longer lists keep their first `budget`
/// cells and get the three cells of the ellipsis; others stay whole.
pub open spec fn shortened_cells(cells: Seq<Seq<char>>, budget: nat) -> Seq<Seq<char>> {
    if cells.len() > budget {
        cells.take(budget as int) + ellipsis_cells()
    } else {
        cells
    }
}

/// A text as the sequence of cells that it takes up when displayed, one
/// cell for each grapheme cluster.
#[derive(Clone, Debug)]
pub struct Cells {
    pub parts: Vec<String>,
}

impl View for Cells {
    type V = Seq<Seq<char>>;

    open spec fn view(&self) -> Seq<Seq<char>> {
        text_views(self.parts@)
    }
}

impl Cells {
    /// No cell is empty.
    pub open spec fn wf(&self) -> bool {
        forall|i: int| 0 <= i < self@.len() ==> (#[trigger] self@[i]).len() > 0
    }

    /// The text that the cells spell.
    pub open spec fn text(&self) -> Seq<char> {
        joined(self@)
    }

    /// No cells at all.
    pub fn new() -> (c: Cells)
        ensures
            c@ == Seq::<Seq<char>>::empty(),
            c.wf(),
    {
        let c = Cells { parts: Vec::new() };
        assert(c@ =~= Seq::<Seq<char>>::empty());
        c
    }

    /// The cells of `text`: its grapheme clusters, which spell it.
    pub fn measure(text: &str) -> (c: Cells)
        ensures
            c@ == grapheme_clusters(text@),
            c.text() == text@,
            c.wf(),
    {
        let parts = clusters_of(text);
        let c = Cells { parts };
        proof {
            assert forall|i: int| 0 <= i < c@.len() implies (#[trigger] c@[i]).len() > 0 by {
                assert(c.parts[i]@.len() > 0);
            }
        }
        c
    }

    /// The number of cells.
    pub fn width(&self) -> (n: usize)
        ensures
            n == self@.len(),
    {
        self.parts.len()
    }

    /// Adds `glyph` as one more cell.
    pub fn push_glyph(&mut self, glyph: &str)
        ensures
            final(self)@ == old(self)@.push(glyph@),
            old(self).wf() && glyph@.len() > 0 ==> final(self).wf(),
    {
        self.parts.push(String::from_str(glyph));
        assert(self@ =~= old(self)@.push(glyph@));
    }

    /// Adds `n` cells that each hold `glyph`.
    pub fn push_glyphs(&mut self, glyph: &str, n: usize)
        ensures
            final(self)@ == old(self)@ + Seq::new(n as nat, |i: int| glyph@),
            old(self).wf() && glyph@.len() > 0 ==> final(self).wf(),
    {
        let mut i: usize = 0;
        assert(self@ =~= old(self)@ + Seq::new(0, |i: int| glyph@));
        while i < n
            invariant
                i <= n,
                self@ == old(self)@ + Seq::new(i as nat, |k: int| glyph@),
                old(self).wf() && glyph@.len() > 0 ==> self.wf(),
            decreases n - i,
        {
            self.push_glyph(glyph);
            i = i + 1;
            assert(self@ =~= old(self)@ + Seq::new(i as nat, |k: int| glyph@));
        }
    }

    /// Adds the cells of `other` after those already there.
    pub fn extend(&mut self, other: &Cells)
        ensures
            final(self)@ == old(self)@ + other@,
            old(self).wf() && other.wf() ==> final(self).wf(),
    {
        let n: usize = other.parts.len();
        let mut i: usize = 0;
        assert(self@ =~= old(self)@ + other@.take(0));
        while i < n
            invariant
                i <= n,
                n == other@.len(),
                self@ == old(self)@ + other@.take(i as int),
                old(self).wf() && other.wf() ==> self.wf(),
            decreases n - i,
        {
            let piece: &String = &other.parts[i];
            assert(piece@ == other@[i as int]);
            self.push_glyph(piece.as_str());
            i = i + 1;
            assert(self@ =~= old(self)@ + other@.take(i as int));
        }
        assert(other@.take(n as int) =~= other@);
    }

    /// The cells cut to `budget`: a longer list keeps its first `budget`
    /// cells, followed by the three cells of the ellipsis, `budget + 3` in
    /// all; a list within the budget stays as it is.
    pub fn shortened(&self, budget: usize) -> (c: Cells)
        ensures
            c@ == shortened_cells(self@, budget as nat),
            self@.len() > budget ==> c@.len() == budget + 3,
            self@.len() <= budget ==> c@ == self@,
            self.wf() ==> c.wf(),
    {
        let mut c = Cells::new();
        if self.parts.len() > budget {
            let mut i: usize = 0;
            assert(c@ =~= self@.take(0));
            while i < budget
                invariant
                    i <= budget < self@.len(),
                    c@ == self@.take(i as int),
                    self.wf() ==> c.wf(),
                decreases budget - i,
            {
                let piece: &String = &self.parts[i];
                assert(piece@ == self@[i as int]);
                c.push_glyph(piece.as_str());
                i = i + 1;
                assert(c@ =~= self@.take(i as int));
            }
            proof {
                reveal_strlit(".");
                assert("."@ =~= seq!['.']);
            }
            c.push_glyph(".");
            c.push_glyph(".");
            c.push_glyph(".");
            assert(c@ =~= self@.take(budget as int) + ellipsis_cells());
        } else {
            c.extend(self);
            assert(c@ =~= self@);
        }
        c
    }

    /// Writes the cells out as one text.
    pub fn to_text(&self) -> (r: String)
        ensures
            r@ == self.text(),
    {
        let mut out = String::new();
        let n: usize = self.parts.len();
        let mut i: usize = 0;
        assert(self@.take(0) =~= Seq::<Seq<char>>::empty());
        while i < n
            invariant
                i <= n,
                n == self@.len(),
                out@ == joined(self@.take(i as int)),
            decreases n - i,
        {
            let piece: &String = &self.parts[i];
            out.append(piece.as_str());
            proof {
                assert(self@.take(i + 1) =~= self@.take(i as int).push(self@[i as int]));
                lemma_joined_push(self@.take(i as int), self@[i as int]);
            }
            i = i + 1;
        }
        assert(self@.take(n as int) =~= self@);
        out
    }
}

} // verus!
