//! Character-level helpers shared by the rest of the crate.
//!
//! Strings are modelled by their sequence of characters (`s@`); every function
//! here states its result over that model.

use vstd::prelude::*;

verus! {

/// The models of a list of strings, in order.
pub open spec fn texts(items: Seq<String>) -> Seq<Seq<char>> {
    items.map_values(|s: String| s@)
}

/// `s` with every occurrence of `from` replaced by `to`.
pub open spec fn replaced(s: Seq<char>, from: char, to: char) -> Seq<char> {
    s.map_values(
        |c: char|
            if c == from {
                to
            } else {
                c
            },
    )
}

/// Whether `s` ends with `suffix`.
pub open spec fn has_suffix(s: Seq<char>, suffix: Seq<char>) -> bool {
    suffix.len() <= s.len() && s.skip(s.len() - suffix.len()) == suffix
}

/// `s` without one trailing line feed, if it ends with one.
pub open spec fn without_final_newline(s: Seq<char>) -> Seq<char> {
    if s.len() > 0 && s.last() == '\n' {
        s.drop_last()
    } else {
        s
    }
}

/// The position of the first line feed in `s`, or `s.len()` if there is none.
pub open spec fn first_newline(s: Seq<char>) -> int
    decreases s.len(),
{
    if s.len() == 0 || s[0] == '\n' {
        0
    } else {
        1 + first_newline(s.drop_first())
    }
}

/// The lines of `s`: the stretches between line feeds. A line feed ends a
/// line, so a final line feed does not open another, empty, line.
pub open spec fn lines_of(s: Seq<char>) -> Seq<Seq<char>>
    decreases s.len(),
{
    if s.len() == 0 {
        seq![]
    } else {
        let n = first_newline(s);
        if 0 <= n < s.len() {
            seq![s.take(n)] + lines_of(s.skip(n + 1))
        } else {
            seq![s]
        }
    }
}

/// The lower-case hexadecimal digit for `d`, which is below sixteen.
pub open spec fn hex_digit(d: nat) -> char {
    seq!['0', '1', '2', '3', '4', '5', '6', '7', '8', '9', 'a', 'b', 'c', 'd', 'e', 'f'][d as int]
}

/// `n` in lower-case hexadecimal, without leading zeros (`0` is `"0"`).
pub open spec fn hex_of(n: nat) -> Seq<char>
    decreases n,
{
    if n < 16 {
        seq![hex_digit(n)]
    } else {
        hex_of(n / 16).push(hex_digit(n % 16))
    }
}

/// `first_newline` is where the first line feed stands.
pub proof fn lemma_first_newline(s: Seq<char>, n: int)
    requires
        0 <= n <= s.len(),
        forall|j: int| 0 <= j < n ==> s[j] != '\n',
        n == s.len() || s[n] == '\n',
    ensures
        first_newline(s) == n,
    decreases s.len(),
{
    if n > 0 {
        let rest = s.drop_first();
        assert forall|j: int| 0 <= j < n - 1 implies rest[j] != '\n' by {
            assert(rest[j] == s[j + 1]);
        }
        lemma_first_newline(rest, n - 1);
    }
}

/// No line holds a line feed.
pub proof fn lemma_lines_hold_no_newline(s: Seq<char>)
    ensures
        forall|i: int, j: int|
            0 <= i < lines_of(s).len() && 0 <= j < lines_of(s)[i].len() ==> lines_of(s)[i][j]
                != '\n',
    decreases s.len(),
{
    if s.len() > 0 {
        let n = first_newline(s);
        lemma_first_newline_bounds(s);
        if n < s.len() {
            lemma_lines_hold_no_newline(s.skip(n + 1));
            let rest = lines_of(s.skip(n + 1));
            assert forall|i: int, j: int|
                0 <= i < lines_of(s).len() && 0 <= j < lines_of(s)[i].len() implies lines_of(
                s,
            )[i][j] != '\n' by {
                if i > 0 {
                    assert(lines_of(s)[i] == rest[i - 1]);
                }
            }
        }
    }
}

/// The lines `lines`, each with a line feed behind it, one after the other.
pub open spec fn terminated(lines: Seq<Seq<char>>) -> Seq<char>
    decreases lines.len(),
{
    if lines.len() == 0 {
        seq![]
    } else {
        lines[0] + seq!['\n'] + terminated(lines.drop_first())
    }
}

/// The lines of a text, each with a line feed behind it, give the text back,
/// with a line feed at its end where it had none.
pub proof fn lemma_lines_give_the_text_back(s: Seq<char>)
    ensures
        terminated(lines_of(s)) == if s.len() == 0 || s.last() == '\n' {
            s
        } else {
            s.push('\n')
        },
    decreases s.len(),
{
    if s.len() == 0 {
        assert(terminated(lines_of(s)) =~= s);
    } else {
        let n = first_newline(s);
        let lines = lines_of(s);
        lemma_first_newline_bounds(s);
        assert(lines.len() > 0);
        assert(terminated(lines) == lines[0] + seq!['\n'] + terminated(lines.drop_first()));
        if n < s.len() {
            let rest = s.skip(n + 1);
            lemma_lines_give_the_text_back(rest);
            assert(lines[0] == s.take(n));
            assert(lines.drop_first() =~= lines_of(rest));
            assert(s =~= s.take(n) + seq!['\n'] + rest);
            if rest.len() == 0 {
                assert(s.last() == s[n]);
                assert(s.take(n) + seq!['\n'] + rest =~= s);
            } else {
                assert(rest.last() == s.last());
                if rest.last() != '\n' {
                    assert(s.take(n) + seq!['\n'] + rest.push('\n') =~= s.push('\n'));
                }
            }
        } else {
            assert(lines[0] == s);
            assert(lines.drop_first() =~= Seq::<Seq<char>>::empty());
            assert(terminated(lines.drop_first()) =~= Seq::<char>::empty());
            assert(s.last() == s[s.len() - 1]);
            assert(s + seq!['\n'] + Seq::<char>::empty() =~= s.push('\n'));
        }
    }
}

/// `first_newline` stays within `s`, passes no line feed and stops at one.
pub proof fn lemma_first_newline_bounds(s: Seq<char>)
    ensures
        0 <= first_newline(s) <= s.len(),
        forall|j: int| 0 <= j < first_newline(s) ==> s[j] != '\n',
        first_newline(s) < s.len() ==> s[first_newline(s)] == '\n',
    decreases s.len(),
{
    if s.len() > 0 && s[0] != '\n' {
        let rest = s.drop_first();
        lemma_first_newline_bounds(rest);
        assert forall|j: int| 0 <= j < first_newline(s) implies s[j] != '\n' by {
            if j > 0 {
                assert(s[j] == rest[j - 1]);
            }
        }
    }
}

/// Whether `c` is a lower-case hexadecimal digit.
pub open spec fn is_hex_digit(c: char) -> bool {
    ('0' <= c && c <= '9') || ('a' <= c && c <= 'f')
}

/// `hex_of` is never empty and holds hexadecimal digits only.
pub proof fn lemma_hex_of_digits(n: nat)
    ensures
        hex_of(n).len() >= 1,
        n >= 16 ==> hex_of(n).len() >= 2,
        forall|i: int| 0 <= i < hex_of(n).len() ==> is_hex_digit(#[trigger] hex_of(n)[i]),
    decreases n,
{
    if n >= 16 {
        lemma_hex_of_digits(n / 16);
    }
}

/// Two numbers with the same hexadecimal form are the same number.
pub proof fn lemma_hex_of_is_injective(a: nat, b: nat)
    requires
        hex_of(a) == hex_of(b),
    ensures
        a == b,
    decreases a,
{
    lemma_hex_of_digits(a);
    lemma_hex_of_digits(b);
    if a < 16 && b < 16 {
        assert(hex_of(a)[0] == hex_digit(a));
        assert(hex_of(b)[0] == hex_digit(b));
    } else if a >= 16 && b >= 16 {
        assert(hex_of(a).drop_last() =~= hex_of(a / 16));
        assert(hex_of(b).drop_last() =~= hex_of(b / 16));
        assert(hex_of(a).last() == hex_digit(a % 16));
        assert(hex_of(b).last() == hex_digit(b % 16));
        lemma_hex_of_is_injective(a / 16, b / 16);
    }
}

/// Appends one character to a string.
///
/// Trusted: `String::push` adds exactly the given character at the end.
#[verifier::external_body]
pub(crate) fn push_char(target: &mut String, c: char)
    ensures
        final(target)@ == old(target)@.push(c),
{
    target.push(c);
}

/// The characters of `s`, in order.
pub fn chars_of(s: &str) -> (v: Vec<char>)
    ensures
        v@ == s@,
{
    let mut v: Vec<char> = Vec::new();
    for c in it: s.chars()
        invariant
            it.seq() == s@,
            v@ == it.seq().take(it.index() as int),
    {
        v.push(c);
    }
    v
}

/// Replaces every `from` in `s` by `to`.
pub fn replace_char(s: &str, from: char, to: char) -> (r: String)
    ensures
        r@ == replaced(s@, from, to),
{
    let mut r = String::new();
    for c in it: s.chars()
        invariant
            it.seq() == s@,
            r@ == replaced(s@, from, to).take(it.index() as int),
    {
        if c == from {
            push_char(&mut r, to);
        } else {
            push_char(&mut r, c);
        }
        assert(r@ =~= replaced(s@, from, to).take(it.index() + 1));
    }
    r
}

/// Tells whether `s` ends with `suffix`.
pub fn ends_with(s: &str, suffix: &str) -> (r: bool)
    ensures
        r == has_suffix(s@, suffix@),
{
    let text = chars_of(s);
    let tail = chars_of(suffix);
    if tail.len() > text.len() {
        return false;
    }
    let offset: usize = text.len() - tail.len();
    let mut i: usize = 0;
    while i < tail.len()
        invariant
            offset + tail.len() == text.len(),
            i <= tail.len(),
            text@ == s@,
            tail@ == suffix@,
            forall|j: int| 0 <= j < i ==> text@[offset + j] == tail@[j],
        decreases tail.len() - i,
    {
        if text[offset + i] != tail[i] {
            assert(s@.skip(offset as int)[i as int] != suffix@[i as int]);
            return false;
        }
        i += 1;
    }
    assert(s@.skip(offset as int) =~= suffix@);
    true
}

/// Drops one trailing line feed from `s`, if it has one.
pub fn trim_final_newline(s: &str) -> (r: String)
    ensures
        r@ == without_final_newline(s@),
{
    let text = chars_of(s);
    let n: usize = text.len();
    let keep: usize = if n > 0 && text[n - 1] == '\n' {
        n - 1
    } else {
        n
    };
    let mut r = String::new();
    let mut i: usize = 0;
    while i < keep
        invariant
            i <= keep <= n,
            n == text@.len(),
            r@ == text@.take(i as int),
        decreases keep - i,
    {
        push_char(&mut r, text[i]);
        assert(r@ =~= text@.take(i + 1));
        i += 1;
    }
    assert(text@.take(n as int) =~= text@);
    assert(text@.take(n - 1) =~= text@.drop_last());
    r
}

/// Splits `s` into its lines.
pub fn split_lines(s: &str) -> (lines: Vec<String>)
    ensures
        texts(lines@) == lines_of(s@),
{
    let mut lines: Vec<String> = Vec::new();
    let mut current = String::new();
    let ghost mut start: int = 0;
    proof {
        assert(s@.skip(0) =~= s@);
        assert(texts(lines@) + lines_of(s@) =~= lines_of(s@));
    }
    for c in it: s.chars()
        invariant
            it.seq() == s@,
            0 <= start <= it.index(),
            current@ == s@.subrange(start, it.index() as int),
            forall|j: int| start <= j < it.index() ==> s@[j] != '\n',
            lines_of(s@) == texts(lines@) + lines_of(s@.skip(start)),
    {
        let ghost i = it.index() as int;
        let ghost rest = s@.skip(start);
        if c == '\n' {
            proof {
                lemma_first_newline(rest, i - start);
                assert(rest.take(i - start) =~= current@);
                assert(rest.skip(i - start + 1) =~= s@.skip(i + 1));
                assert(texts(lines@.push(current)) =~= texts(lines@).push(current@));
                assert(texts(lines@) + (seq![current@] + lines_of(s@.skip(i + 1))) =~= texts(
                    lines@,
                ).push(current@) + lines_of(s@.skip(i + 1)));
                start = i + 1;
            }
            lines.push(current);
            current = String::new();
            assert(current@ =~= s@.subrange(start, i + 1));
        } else {
            push_char(&mut current, c);
            assert(current@ =~= s@.subrange(start, i + 1));
        }
    }
    proof {
        let rest = s@.skip(start);
        assert(rest =~= current@);
        if rest.len() > 0 {
            lemma_first_newline(rest, rest.len() as int);
            assert(texts(lines@.push(current)) =~= texts(lines@).push(current@));
        } else {
            assert(texts(lines@) + Seq::<Seq<char>>::empty() =~= texts(lines@));
        }
    }
    if !current.as_str().is_empty() {
        lines.push(current);
    }
    lines
}

/// Appends `n` in lower-case hexadecimal to `target`.
pub fn push_hex(target: &mut String, n: u64)
    ensures
        final(target)@ == old(target)@ + hex_of(n as nat),
    decreases n,
{
    if n >= 16 {
        push_hex(target, n / 16);
    }
    let d: u64 = n % 16;
    let c: char = if d == 0 {
        '0'
    } else if d == 1 {
        '1'
    } else if d == 2 {
        '2'
    } else if d == 3 {
        '3'
    } else if d == 4 {
        '4'
    } else if d == 5 {
        '5'
    } else if d == 6 {
        '6'
    } else if d == 7 {
        '7'
    } else if d == 8 {
        '8'
    } else if d == 9 {
        '9'
    } else if d == 10 {
        'a'
    } else if d == 11 {
        'b'
    } else if d == 12 {
        'c'
    } else if d == 13 {
        'd'
    } else if d == 14 {
        'e'
    } else {
        'f'
    };
    assert(c == hex_digit(d as nat));
    push_char(target, c);
    assert(final(target)@ =~= old(target)@ + hex_of(n as nat));
}

} // verus!
