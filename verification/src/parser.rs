//! The unit parser: turns what a package manager's command printed into a
//! count of items.

use crate::failure::Failure;
use crate::registry::{header_lines, header_lines_of, CommandKind, Intent};
use crate::text::{trailing, without_trailing};
use vstd::prelude::*;
use vstd::string::*;

verus! {

/// What a finished command left behind: the bytes it wrote to its standard
/// output and to its standard error, and its exit code if it has one.
#[derive(Clone, Debug)]
pub struct RawOutput {
    pub stdout: Vec<u8>,
    pub stderr: Vec<u8>,
    pub status: Option<i32>,
}

/// The byte that ends a line.
pub const LINE_FEED: u8 = 10;

/// The byte that may stand before the line feed.
pub const CARRIAGE_RETURN: u8 = 13;

/// The length of the line that starts at `from`: the bytes up to the next
/// line feed, or up to the end of the output.
pub open spec fn line_len(out: Seq<u8>, from: int) -> nat
    decreases out.len() - from,
{
    if from < 0 || from >= out.len() || out[from] == LINE_FEED {
        0
    } else {
        1 + line_len(out, from + 1)
    }
}

/// A line is blank if it holds nothing, or nothing but a carriage return.
pub open spec fn blank(line: Seq<u8>) -> bool {
    line.len() == 0 || line == seq![CARRIAGE_RETURN]
}

/// The number of lines that are not blank among the lines that start at
/// `from` or later, the first `skip` of them left out.
pub open spec fn lines_counted(out: Seq<u8>, from: int, skip: nat) -> nat
    decreases out.len() - from,
{
    if from < 0 || from >= out.len() {
        0
    } else {
        let len = line_len(out, from);
        let here = if skip == 0 && !blank(out.subrange(from, from + len)) {
            1nat
        } else {
            0nat
        };
        let left = if skip == 0 {
            0nat
        } else {
            (skip - 1) as nat
        };
        if from + len >= out.len() {
            here
        } else {
            here + lines_counted(out, from + len + 1, left)
        }
    }
}

/// The number of item lines of an output: its lines that are not blank,
/// after `headers` lines at the top have been passed over.
pub open spec fn item_lines(out: Seq<u8>, headers: nat) -> nat {
    lines_counted(out, 0, headers)
}

/// The bytes that write an ASCII text.
pub open spec fn ascii_bytes(text: Seq<char>) -> Seq<u8> {
    Seq::new(text.len(), |i: int| text[i] as u8)
}

/// Whether an output is the message that stands for "nothing found": the
/// words `no matches` or `matches`, with any line feeds after them.
pub open spec fn says_no_matches(out: Seq<u8>) -> bool {
    let words = without_trailing(out, LINE_FEED);
    words == ascii_bytes("no matches"@) || words == ascii_bytes("matches"@)
}

/// Whether a byte writes a decimal digit.
pub open spec fn is_digit(b: u8) -> bool {
    48 <= b <= 57
}

/// Whether some bytes are decimal digits and nothing else.
pub open spec fn all_digits(s: Seq<u8>) -> bool {
    s.len() > 0 && forall|i: int| 0 <= i < s.len() ==> is_digit(#[trigger] s[i])
}

/// The number that decimal digits write.
pub open spec fn number_of(s: Seq<u8>) -> int
    decreases s.len(),
{
    if s.len() == 0 {
        0
    } else {
        number_of(s.drop_last()) * 10 + (s.last() - 48)
    }
}

/// The count that an output states outright: the number that it writes,
/// if it is made of decimal digits, with any line feeds after them, and
/// the number fits the count type.
pub open spec fn stated_count(out: Seq<u8>) -> Option<int> {
    let words = without_trailing(out, LINE_FEED);
    if all_digits(words) && number_of(words) <= i32::MAX {
        Some(number_of(words))
    } else {
        None
    }
}

/// The count that an output gives for a package manager. Most managers
/// give the number of their item lines, and fail with `ParseFailure` if
/// that number does not fit the count type. Portage gives 0 when it says
/// that nothing matches, and the count that it states if it states one;
/// otherwise it gives the number of its item lines too, but 1 in place of
/// a number that does not fit. So a single line that is no number counts
/// as 1 for Portage.
pub open spec fn count_of(kind: CommandKind, intent: Intent, out: Seq<u8>) -> Result<
    int,
    Failure,
> {
    let lines = item_lines(out, header_lines_of(kind, intent));
    if kind == CommandKind::Portage {
        if says_no_matches(out) {
            Ok(0)
        } else if stated_count(out) is Some {
            Ok(stated_count(out)->0)
        } else if lines > i32::MAX {
            Ok(1)
        } else {
            Ok(lines as int)
        }
    } else if lines > i32::MAX {
        Err(Failure::ParseFailure)
    } else {
        Ok(lines as int)
    }
}

/// Digits write a number that is not negative, and more digits never
/// write a smaller number.
pub proof fn lemma_number_grows(s: Seq<u8>, n: int)
    requires
        0 <= n <= s.len(),
        forall|i: int| 0 <= i < s.len() ==> is_digit(#[trigger] s[i]),
    ensures
        0 <= number_of(s.take(n)) <= number_of(s),
    decreases s.len() - n,
{
    if n == s.len() {
        assert(s.take(n) =~= s);
        lemma_number_nonnegative(s);
    } else {
        lemma_number_grows(s, n + 1);
        assert(s.take(n + 1).drop_last() =~= s.take(n));
        assert(is_digit(s[n]));
        assert forall|i: int| 0 <= i < s.take(n).len() implies is_digit(
            #[trigger] s.take(n)[i],
        ) by {
            assert(s.take(n)[i] == s[i]);
        }
        lemma_number_nonnegative(s.take(n));
    }
}

/// Digits write a number that is not negative.
pub proof fn lemma_number_nonnegative(s: Seq<u8>)
    requires
        forall|i: int| 0 <= i < s.len() ==> is_digit(#[trigger] s[i]),
    ensures
        number_of(s) >= 0,
    decreases s.len(),
{
    if s.len() > 0 {
        assert forall|i: int| 0 <= i < s.drop_last().len() implies is_digit(
            #[trigger] s.drop_last()[i],
        ) by {
            assert(s.drop_last()[i] == s[i]);
        }
        lemma_number_nonnegative(s.drop_last());
        assert(is_digit(s[s.len() - 1]));
    }
}

/// A count is never negative and always fits the count type.
pub proof fn lemma_count_bounds(kind: CommandKind, intent: Intent, out: Seq<u8>)
    ensures
        count_of(kind, intent, out) is Ok ==> 0 <= count_of(kind, intent, out)->Ok_0 <= i32::MAX,
{
    let words = without_trailing(out, LINE_FEED);
    if all_digits(words) {
        lemma_number_nonnegative(words);
    }
}

/// An output that says that nothing matches counts as zero for Portage,
/// whatever else the rules would make of it.
pub proof fn lemma_no_matches_is_zero(intent: Intent, out: Seq<u8>)
    requires
        says_no_matches(out),
    ensures
        count_of(CommandKind::Portage, intent, out) == Ok::<int, Failure>(0),
{
}

/// Counts the item lines of `out`: the lines that are not blank, after
/// `headers` lines at the top have been passed over.
pub fn count_lines(out: &Vec<u8>, headers: usize) -> (count: usize)
    ensures
        count == item_lines(out@, headers as nat),
        count <= out@.len(),
{
    let n: usize = out.len();
    let mut pos: usize = 0;
    let mut skip: usize = headers;
    let mut count: usize = 0;
    while pos < n
        invariant
            pos <= n,
            n == out@.len(),
            count <= pos,
            item_lines(out@, headers as nat) == count + lines_counted(out@, pos as int, skip as nat),
        decreases n - pos,
    {
        let start: usize = pos;
        let mut end: usize = pos;
        while end < n && out[end] != LINE_FEED
            invariant
                start <= end <= n,
                n == out@.len(),
                line_len(out@, start as int) == (end - start) + line_len(out@, end as int),
            decreases n - end,
        {
            end = end + 1;
        }
        let is_blank: bool = end == start || (end == start + 1 && out[start] == CARRIAGE_RETURN);
        proof {
            let line = out@.subrange(start as int, end as int);
            if end == start + 1 {
                assert(line[0] == out@[start as int]);
                if out@[start as int] == CARRIAGE_RETURN {
                    assert(line =~= seq![CARRIAGE_RETURN]);
                }
            }
            assert(seq![CARRIAGE_RETURN].len() == 1);
            assert(seq![CARRIAGE_RETURN][0] == CARRIAGE_RETURN);
            assert(line.len() == end - start);
            assert(is_blank == blank(line));
        }
        if skip == 0 {
            if !is_blank {
                count = count + 1;
            }
        } else {
            skip = skip - 1;
        }
        if end == n {
            pos = n;
        } else {
            pos = end + 1;
        }
    }
    count
}

/// Whether the first `len` bytes of `bytes` write the ASCII text `word`.
fn bytes_spell(bytes: &Vec<u8>, len: usize, word: &str) -> (r: bool)
    requires
        len <= bytes.len(),
        is_ascii(word),
    ensures
        r == (bytes@.take(len as int) == ascii_bytes(word@)),
{
    broadcast use is_ascii_spec_bytes;

    let letters: Vec<u8> = word.as_bytes_vec();
    assert(letters@ =~= ascii_bytes(word@));
    if letters.len() != len {
        return false;
    }
    let mut i: usize = 0;
    while i < len
        invariant
            i <= len,
            len <= bytes.len(),
            len == letters.len(),
            letters@ == ascii_bytes(word@),
            forall|k: int| 0 <= k < i ==> bytes@[k] == letters@[k],
        decreases len - i,
    {
        if bytes[i] != letters[i] {
            assert(bytes@.take(len as int)[i as int] == bytes@[i as int]);
            return false;
        }
        i = i + 1;
    }
    assert(bytes@.take(len as int) =~= letters@);
    true
}

/// The length of an output without the line feeds at its end.
pub fn trimmed_len(out: &Vec<u8>) -> (end: usize)
    ensures
        end <= out@.len(),
        out@.take(end as int) == without_trailing(out@, LINE_FEED),
{
    let n: usize = out.len();
    let mut end: usize = n;
    proof {
        assert(out@.take(n as int) =~= out@);
    }
    while end > 0 && out[end - 1] == LINE_FEED
        invariant
            end <= n,
            n == out@.len(),
            trailing(out@, LINE_FEED) == (n - end) + trailing(out@.take(end as int), LINE_FEED),
        decreases end,
    {
        proof {
            assert(out@.take(end as int).last() == out@[end - 1]);
            assert(out@.take(end as int).drop_last() =~= out@.take(end - 1));
        }
        end = end - 1;
    }
    proof {
        if end > 0 {
            assert(out@.take(end as int).last() == out@[end - 1]);
        }
        assert(without_trailing(out@, LINE_FEED) =~= out@.take(end as int));
    }
    end
}

/// Whether an output is the message that stands for "nothing found".
pub fn is_no_matches(out: &Vec<u8>) -> (r: bool)
    ensures
        r == says_no_matches(out@),
{
    let end: usize = trimmed_len(out);
    proof {
        reveal_strlit("no matches");
        reveal_strlit("matches");
    }
    bytes_spell(out, end, "no matches") || bytes_spell(out, end, "matches")
}

/// The count that an output states outright, if it states one.
pub fn read_count(out: &Vec<u8>) -> (r: Option<i32>)
    ensures
        match r {
            Some(count) => stated_count(out@) == Some(count as int) && count >= 0,
            None => stated_count(out@) is None,
        },
{
    let end: usize = trimmed_len(out);
    let ghost words = out@.take(end as int);
    if end == 0 {
        return None;
    }
    let mut value: i64 = 0;
    let mut i: usize = 0;
    assert(words.take(0) =~= Seq::<u8>::empty());
    while i < end
        invariant
            i <= end <= out@.len(),
            words == out@.take(end as int),
            words == without_trailing(out@, LINE_FEED),
            forall|k: int| 0 <= k < i ==> is_digit(#[trigger] words[k]),
            value == number_of(words.take(i as int)),
            0 <= value <= i32::MAX,
        decreases end - i,
    {
        let b: u8 = out[i];
        assert(words[i as int] == b);
        if b < 48 || b > 57 {
            assert(!is_digit(words[i as int]));
            return None;
        }
        proof {
            assert(words.take(i + 1).drop_last() =~= words.take(i as int));
            assert(words.take(i + 1).last() == b);
        }
        let next: i64 = value * 10 + (b - 48) as i64;
        if next > 2147483647 {
            proof {
                if all_digits(words) {
                    lemma_number_grows(words, i + 1);
                }
            }
            return None;
        }
        value = next;
        i = i + 1;
    }
    assert(words.take(end as int) =~= words);
    Some(value as i32)
}

/// Gives the count that `raw` holds for a package manager of the given
/// kind. See `count_of` for the rules.
pub fn parse(kind: CommandKind, intent: Intent, raw: &RawOutput) -> (r: Result<i32, Failure>)
    ensures
        match r {
            Ok(count) => count_of(kind, intent, raw.stdout@) == Ok::<int, Failure>(count as int)
                && count >= 0,
            Err(e) => count_of(kind, intent, raw.stdout@) == Err::<int, Failure>(e),
        },
{
    let lines: usize = count_lines(&raw.stdout, header_lines(kind, intent));
    match kind {
        CommandKind::Portage => {
            if is_no_matches(&raw.stdout) {
                return Ok(0);
            }
            if let Some(count) = read_count(&raw.stdout) {
                return Ok(count);
            }
            if lines > 2147483647 {
                Ok(1)
            } else {
                Ok(lines as i32)
            }
        },
        _ => {
            if lines > 2147483647 {
                Err(Failure::ParseFailure)
            } else {
                Ok(lines as i32)
            }
        },
    }
}

} // verus!
