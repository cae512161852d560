//! Small building blocks for text: repeated glyphs, decimal numbers and
//! trimming, all stated over sequences of characters.

use vstd::prelude::*;
use vstd::string::*;

verus! {

/// The characters of each text of a list.
pub open spec fn text_views(texts: Seq<String>) -> Seq<Seq<char>> {
    Seq::new(texts.len(), |i: int| texts[i]@)
}

/// The sequence made of `n` copies of the glyph `unit`.
pub open spec fn repeated(unit: Seq<char>, n: nat) -> Seq<char>
    decreases n,
{
    if n == 0 {
        Seq::empty()
    } else {
        repeated(unit, (n - 1) as nat) + unit
    }
}

/// Appends `n` copies of `unit` to `out`.
pub fn push_repeated(out: &mut String, unit: &str, n: usize)
    ensures
        final(out)@ == old(out)@ + repeated(unit@, n as nat),
{
    let mut i: usize = 0;
    while i < n
        invariant
            i <= n,
            out@ == old(out)@ + repeated(unit@, i as nat),
        decreases n - i,
    {
        out.append(unit);
        i = i + 1;
    }
}

/// Whether two pieces of text hold the same characters.
pub fn same_text(a: &str, b: &str) -> (r: bool)
    ensures
        r == (a@ == b@),
{
    let left = String::from_str(a);
    let right = String::from_str(b);
    left == right
}

/// How many copies of `c` stand at the front of `s`.
pub open spec fn leading<A>(s: Seq<A>, c: A) -> nat
    decreases s.len(),
{
    if s.len() > 0 && s.first() == c {
        1 + leading(s.drop_first(), c)
    } else {
        0
    }
}

/// How many copies of `c` stand at the end of `s`.
pub open spec fn trailing<A>(s: Seq<A>, c: A) -> nat
    decreases s.len(),
{
    if s.len() > 0 && s.last() == c {
        1 + trailing(s.drop_last(), c)
    } else {
        0
    }
}

/// `s` without the copies of `c` at its front.
pub open spec fn without_leading<A>(s: Seq<A>, c: A) -> Seq<A> {
    s.subrange(leading(s, c) as int, s.len() as int)
}

/// `s` without the copies of `c` at its end.
pub open spec fn without_trailing<A>(s: Seq<A>, c: A) -> Seq<A> {
    s.subrange(0, s.len() - trailing(s, c))
}

/// `s` without the copies of `c` at its front and at its end. A text made of
/// nothing but `c` becomes empty.
pub open spec fn without_surrounding(s: Seq<char>, c: char) -> Seq<char> {
    if leading(s, c) == s.len() {
        Seq::empty()
    } else {
        s.subrange(leading(s, c) as int, s.len() - trailing(s, c))
    }
}

/// The run of `c` at the front of `s` is made of `c` only, stays inside `s`,
/// and stops at the first other character.
pub proof fn lemma_leading<A>(s: Seq<A>, c: A)
    ensures
        leading(s, c) <= s.len(),
        forall|i: int| 0 <= i < leading(s, c) ==> s[i] == c,
        leading(s, c) < s.len() ==> s[leading(s, c) as int] != c,
    decreases s.len(),
{
    if s.len() > 0 && s.first() == c {
        let rest = s.drop_first();
        lemma_leading(rest, c);
        assert forall|i: int| 0 <= i < leading(s, c) implies s[i] == c by {
            if i > 0 {
                assert(s[i] == rest[i - 1]);
            }
        }
        if leading(s, c) < s.len() {
            assert(s[leading(s, c) as int] == rest[leading(rest, c) as int]);
        }
    }
}

/// The run of `c` at the end of `s` is made of `c` only, stays inside `s`,
/// and stops at the last other character.
pub proof fn lemma_trailing<A>(s: Seq<A>, c: A)
    ensures
        trailing(s, c) <= s.len(),
        forall|i: int| s.len() - trailing(s, c) <= i < s.len() ==> s[i] == c,
        trailing(s, c) < s.len() ==> s[s.len() - trailing(s, c) - 1] != c,
    decreases s.len(),
{
    if s.len() > 0 && s.last() == c {
        let rest = s.drop_last();
        lemma_trailing(rest, c);
        assert forall|i: int| s.len() - trailing(s, c) <= i < s.len() implies s[i] == c by {
            if i < s.len() - 1 {
                assert(s[i] == rest[i]);
            }
        }
        if trailing(s, c) < s.len() {
            assert(s[s.len() - trailing(s, c) - 1] == rest[rest.len() - trailing(rest, c) - 1]);
        }
    }
}

/// Counts the copies of `c` at the front of `s`.
pub fn count_leading(s: &str, c: char) -> (n: usize)
    ensures
        n == leading(s@, c),
        n <= s@.len(),
{
    let len: usize = s.unicode_len();
    let mut i: usize = 0;
    proof {
        assert(s@.skip(0) =~= s@);
    }
    while i < len && s.get_char(i) == c
        invariant
            i <= len,
            len == s@.len(),
            leading(s@, c) == i + leading(s@.skip(i as int), c),
        decreases len - i,
    {
        proof {
            assert(s@.skip(i as int).first() == s@[i as int]);
            assert(s@.skip(i as int).drop_first() =~= s@.skip(i + 1));
        }
        i = i + 1;
    }
    proof {
        if i < len {
            assert(s@.skip(i as int).first() == s@[i as int]);
        }
    }
    i
}

/// Counts the copies of `c` at the end of `s`.
pub fn count_trailing(s: &str, c: char) -> (n: usize)
    ensures
        n == trailing(s@, c),
        n <= s@.len(),
{
    let len: usize = s.unicode_len();
    let mut j: usize = len;
    proof {
        assert(s@.take(len as int) =~= s@);
    }
    while j > 0 && s.get_char(j - 1) == c
        invariant
            j <= len,
            len == s@.len(),
            trailing(s@, c) == (len - j) + trailing(s@.take(j as int), c),
        decreases j,
    {
        proof {
            assert(s@.take(j as int).last() == s@[j - 1]);
            assert(s@.take(j as int).drop_last() =~= s@.take(j - 1));
        }
        j = j - 1;
    }
    proof {
        if j > 0 {
            assert(s@.take(j as int).last() == s@[j - 1]);
        }
    }
    len - j
}

/// Cuts the copies of `c` off the front of `s`.
pub fn trim_start_char<'a>(s: &'a str, c: char) -> (r: &'a str)
    ensures
        r@ == without_leading(s@, c),
{
    let len: usize = s.unicode_len();
    let cut: usize = count_leading(s, c);
    s.substring_char(cut, len)
}

/// Cuts the copies of `c` off the end of `s`.
pub fn trim_end_char<'a>(s: &'a str, c: char) -> (r: &'a str)
    ensures
        r@ == without_trailing(s@, c),
{
    let len: usize = s.unicode_len();
    let cut: usize = count_trailing(s, c);
    s.substring_char(0, len - cut)
}

/// Cuts the copies of `c` off both ends of `s`.
pub fn trim_char<'a>(s: &'a str, c: char) -> (r: &'a str)
    ensures
        r@ == without_surrounding(s@, c),
{
    let len: usize = s.unicode_len();
    let front: usize = count_leading(s, c);
    if front == len {
        let r = s.substring_char(0, 0);
        assert(r@ =~= Seq::<char>::empty());
        r
    } else {
        let back: usize = count_trailing(s, c);
        proof {
            lemma_leading(s@, c);
            lemma_trailing(s@, c);
            if front + back > len {
                assert(s@[front as int] == c);
            }
        }
        s.substring_char(front, len - back)
    }
}

/// The character that writes the digit `d`.
pub open spec fn digit_char(d: int) -> char {
    if d == 0 {
        '0'
    } else if d == 1 {
        '1'
    } else if d == 2 {
        '2'
    } else if d == 3 {
        '3'
    } else if d == 4 {
        '4'
    } else if d == 5 {
        '5'
    } else if d == 6 {
        '6'
    } else if d == 7 {
        '7'
    } else if d == 8 {
        '8'
    } else {
        '9'
    }
}

/// The decimal digits of `n`, most significant first, without leading zeros.
pub open spec fn digits(n: nat) -> Seq<char>
    decreases n,
{
    if n < 10 {
        seq![digit_char(n as int)]
    } else {
        digits(n / 10).push(digit_char((n % 10) as int))
    }
}

/// The decimal writing of `n`, with a minus sign in front when it is negative.
pub open spec fn decimal(n: int) -> Seq<char> {
    if n < 0 {
        seq!['-'] + digits((-n) as nat)
    } else {
        digits(n as nat)
    }
}

fn digit_text(d: u64) -> (r: &'static str)
    requires
        d < 10,
    ensures
        r@ == seq![digit_char(d as int)],
{
    proof {
        reveal_strlit("0");
        reveal_strlit("1");
        reveal_strlit("2");
        reveal_strlit("3");
        reveal_strlit("4");
        reveal_strlit("5");
        reveal_strlit("6");
        reveal_strlit("7");
        reveal_strlit("8");
        reveal_strlit("9");
    }
    let r = if d == 0 {
        "0"
    } else if d == 1 {
        "1"
    } else if d == 2 {
        "2"
    } else if d == 3 {
        "3"
    } else if d == 4 {
        "4"
    } else if d == 5 {
        "5"
    } else if d == 6 {
        "6"
    } else if d == 7 {
        "7"
    } else if d == 8 {
        "8"
    } else {
        "9"
    };
    assert(r@ =~= seq![digit_char(d as int)]);
    r
}

/// Appends the decimal digits of `n` to `out`.
pub fn push_digits(out: &mut String, n: u64)
    ensures
        final(out)@ == old(out)@ + digits(n as nat),
    decreases n,
{
    if n >= 10 {
        push_digits(out, n / 10);
    }
    out.append(digit_text(n % 10));
    proof {
        let last = seq![digit_char((n % 10) as int)];
        if n >= 10 {
            assert(old(out)@ + digits((n / 10) as nat) + last =~= old(out)@ + digits(
                (n / 10) as nat,
            ).push(digit_char((n % 10) as int)));
        }
    }
}

/// Appends the decimal writing of `n` to `out`.
pub fn push_decimal(out: &mut String, n: i64)
    ensures
        final(out)@ == old(out)@ + decimal(n as int),
{
    if n < 0 {
        out.append("-");
        let magnitude: u64 = if n == i64::MIN {
            9223372036854775808u64
        } else {
            (-n) as u64
        };
        push_digits(out, magnitude);
        proof {
            reveal_strlit("-");
            assert(old(out)@ + "-"@ + digits(magnitude as nat) =~= old(out)@ + (seq!['-'] + digits(
                (-n) as nat,
            )));
        }
    } else {
        push_digits(out, n as u64);
    }
}

} // verus!
