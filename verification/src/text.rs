//! Text normalization for captured tool output: trimming trailing
//! whitespace per line, trimming the whole blob, and joining lines with the
//! platform line ending.

use vstd::prelude::*;
use vstd::utf8::{decode_utf8, valid_utf8};

verus! {

/// The characters carrying the Unicode `White_Space` property, the set that
/// `char::is_whitespace` recognises.
pub open spec fn is_ws_char(c: char) -> bool {
    let u = c as u32;
    ||| u == 0x09
    ||| u == 0x0a
    ||| u == 0x0b
    ||| u == 0x0c
    ||| u == 0x0d
    ||| u == 0x20
    ||| u == 0x85
    ||| u == 0xa0
    ||| u == 0x1680
    ||| (0x2000 <= u && u <= 0x200a)
    ||| u == 0x2028
    ||| u == 0x2029
    ||| u == 0x202f
    ||| u == 0x205f
    ||| u == 0x3000
}

/// `c` is whitespace, as `char::is_whitespace` decides it.
pub fn is_whitespace_char(c: char) -> (r: bool)
    ensures
        r == is_ws_char(c),
{
    let u = c as u32;
    u == 0x09 || u == 0x0a || u == 0x0b || u == 0x0c || u == 0x0d || u == 0x20 || u == 0x85
        || u == 0xa0 || u == 0x1680 || (0x2000 <= u && u <= 0x200a) || u == 0x2028 || u == 0x2029
        || u == 0x202f || u == 0x205f || u == 0x3000
}

/// `s` with its trailing whitespace removed.
pub open spec fn trim_end_spec(s: Seq<char>) -> Seq<char>
    decreases s.len(),
{
    if s.len() > 0 && is_ws_char(s.last()) {
        trim_end_spec(s.drop_last())
    } else {
        s
    }
}

/// `s` with its leading whitespace removed.
pub open spec fn trim_start_spec(s: Seq<char>) -> Seq<char>
    decreases s.len(),
{
    if s.len() > 0 && is_ws_char(s.first()) {
        trim_start_spec(s.drop_first())
    } else {
        s
    }
}

/// `s` with leading and trailing whitespace removed, as `str::trim` does.
pub open spec fn trim_spec(s: Seq<char>) -> Seq<char> {
    trim_end_spec(trim_start_spec(s))
}

/// The least index of `c` in `s`, or `s.len()` when `c` does not occur.
pub open spec fn find_char(s: Seq<char>, c: char) -> nat
    decreases s.len(),
{
    if s.len() == 0 {
        0
    } else if s.first() == c {
        0
    } else {
        1 + find_char(s.drop_first(), c)
    }
}

pub proof fn lemma_find_char(s: Seq<char>, c: char)
    ensures
        find_char(s, c) <= s.len(),
        forall|j: int| 0 <= j < find_char(s, c) ==> s[j] != c,
        find_char(s, c) < s.len() ==> s[find_char(s, c) as int] == c,
    decreases s.len(),
{
    if s.len() > 0 && s.first() != c {
        let t = s.drop_first();
        lemma_find_char(t, c);
        assert forall|j: int| 0 <= j < find_char(s, c) implies s[j] != c by {
            if j > 0 {
                assert(t[j - 1] == s[j]);
            }
        }
    }
}

/// `find_char` is pinned down by its characterisation: no occurrence of `c`
/// before `i`, and `c` at `i` unless `i` is the length.
pub proof fn lemma_find_char_is(s: Seq<char>, c: char, i: nat)
    requires
        i <= s.len(),
        forall|j: int| 0 <= j < i ==> s[j] != c,
        i < s.len() ==> s[i as int] == c,
    ensures
        find_char(s, c) == i,
    decreases s.len(),
{
    if s.len() > 0 && s.first() != c {
        assert(s[0] != c);
        assert(i >= 1);
        let t = s.drop_first();
        assert(forall|j: int| 0 <= j < i - 1 ==> t[j] == s[j + 1] && t[j] != c);
        lemma_find_char_is(t, c, (i - 1) as nat);
    }
}

/// The greatest index of `c` in `s`, or `-1` when `c` does not occur.
pub open spec fn last_index_of(s: Seq<char>, c: char) -> int
    decreases s.len(),
{
    if s.len() == 0 {
        -1
    } else if s.last() == c {
        s.len() - 1
    } else {
        last_index_of(s.drop_last(), c)
    }
}

pub proof fn lemma_last_index_of(s: Seq<char>, c: char)
    ensures
        -1 <= last_index_of(s, c) < s.len(),
        forall|j: int| last_index_of(s, c) < j < s.len() ==> s[j] != c,
        last_index_of(s, c) >= 0 ==> s[last_index_of(s, c)] == c,
    decreases s.len(),
{
    if s.len() > 0 && s.last() != c {
        let t = s.drop_last();
        lemma_last_index_of(t, c);
        assert forall|j: int| last_index_of(s, c) < j < s.len() implies s[j] != c by {
            if j < s.len() - 1 {
                assert(t[j] == s[j]);
            }
        }
    }
}

/// `last_index_of` is pinned down by its characterisation: `c` at `i`
/// unless `i` is `-1`, and no occurrence of `c` after `i`.
pub proof fn lemma_last_index_of_is(s: Seq<char>, c: char, i: int)
    requires
        -1 <= i < s.len(),
        forall|j: int| i < j < s.len() ==> s[j] != c,
        i >= 0 ==> s[i] == c,
    ensures
        last_index_of(s, c) == i,
    decreases s.len(),
{
    if s.len() > 0 && s.last() != c {
        let t = s.drop_last();
        assert(i < s.len() - 1);
        assert(forall|j: int| i < j < t.len() ==> t[j] == s[j] && t[j] != c);
        lemma_last_index_of_is(t, c, i);
    }
}

/// One trailing carriage return removed, as `str::lines` removes it from a
/// line that a `"\r\n"` ending closed.
pub open spec fn strip_cr(l: Seq<char>) -> Seq<char> {
    if l.len() > 0 && l.last() == '\r' {
        l.drop_last()
    } else {
        l
    }
}

/// `s` split into lines as `str::lines` does: pieces between `'\n'`
/// characters, a trailing `'\r'` dropped from each closed line, no final
/// empty piece for a trailing newline, and no line at all for the empty
/// string.
pub open spec fn split_lines(s: Seq<char>) -> Seq<Seq<char>>
    decreases s.len(),
{
    if s.len() == 0 {
        Seq::empty()
    } else {
        let i = find_char(s, '\n');
        if i >= s.len() {
            seq![s]
        } else {
            seq![strip_cr(s.take(i as int))] + split_lines(s.skip(i as int + 1))
        }
    }
}

/// The pieces of `ls` concatenated with `sep` between each pair.
pub open spec fn join_with(ls: Seq<Seq<char>>, sep: Seq<char>) -> Seq<char>
    decreases ls.len(),
{
    if ls.len() == 0 {
        Seq::empty()
    } else if ls.len() == 1 {
        ls[0]
    } else {
        ls[0] + sep + join_with(ls.drop_first(), sep)
    }
}

/// What `remove_trailing_whitespaces` returns: every line trimmed at its
/// end, the lines joined with the platform line ending.
pub open spec fn trimmed_lines_spec(s: Seq<char>) -> Seq<char> {
    join_with(split_lines(s).map_values(|l: Seq<char>| trim_end_spec(l)), seq!['\n'])
}

/// What `format_output` returns on valid UTF-8 input: the decoded text
/// trimmed as a whole, then trimmed line by line.
pub open spec fn formatted(bytes: Seq<u8>) -> Seq<char> {
    trimmed_lines_spec(trim_spec(decode_utf8(bytes)))
}

pub proof fn lemma_split_lines_nonempty(s: Seq<char>)
    ensures
        s.len() > 0 ==> split_lines(s).len() >= 1,
{
}

pub proof fn lemma_trim_end_strip_cr(l: Seq<char>)
    ensures
        trim_end_spec(strip_cr(l)) == trim_end_spec(l),
{
}

/// The index of the first `'\n'` in `s`, or its length when there is none.
fn find_newline(s: &str) -> (i: usize)
    ensures
        i == find_char(s@, '\n'),
        i <= s@.len(),
{
    let n = s.unicode_len();
    let mut i: usize = 0;
    while i < n
        invariant
            i <= n,
            n == s@.len(),
            forall|j: int| 0 <= j < i ==> s@[j] != '\n',
        decreases n - i,
    {
        if s.get_char(i) == '\n' {
            proof {
                lemma_find_char_is(s@, '\n', i as nat);
            }
            return i;
        }
        i = i + 1;
    }
    proof {
        lemma_find_char_is(s@, '\n', n as nat);
    }
    n
}

/// The least upper bound `j <= upto` such that `s` up to `j` is `s` up to
/// `upto` with its trailing whitespace removed.
fn trim_end_index(s: &str, upto: usize) -> (j: usize)
    requires
        upto <= s@.len(),
    ensures
        j <= upto,
        s@.subrange(0, j as int) == trim_end_spec(s@.subrange(0, upto as int)),
{
    let mut j: usize = upto;
    proof {
        assert(trim_end_spec(s@.subrange(0, upto as int)) == trim_end_spec(
            s@.subrange(0, j as int),
        ));
    }
    while j > 0 && is_whitespace_char(s.get_char(j - 1))
        invariant
            j <= upto <= s@.len(),
            trim_end_spec(s@.subrange(0, upto as int)) == trim_end_spec(s@.subrange(0, j as int)),
        decreases j,
    {
        proof {
            let cur = s@.subrange(0, j as int);
            assert(cur.last() == s@[j - 1]);
            assert(cur.drop_last() =~= s@.subrange(0, j - 1));
        }
        j = j - 1;
    }
    proof {
        let cur = s@.subrange(0, j as int);
        assert(trim_end_spec(cur) == cur);
    }
    j
}

/// The greatest lower bound `i` such that `s` from `i` on is `s` with its
/// leading whitespace removed.
fn trim_start_index(s: &str) -> (i: usize)
    ensures
        i <= s@.len(),
        s@.subrange(i as int, s@.len() as int) == trim_start_spec(s@),
{
    let n = s.unicode_len();
    let mut i: usize = 0;
    proof {
        assert(s@.subrange(0, n as int) =~= s@);
    }
    while i < n && is_whitespace_char(s.get_char(i))
        invariant
            i <= n,
            n == s@.len(),
            trim_start_spec(s@) == trim_start_spec(s@.subrange(i as int, n as int)),
        decreases n - i,
    {
        proof {
            let cur = s@.subrange(i as int, n as int);
            assert(cur.first() == s@[i as int]);
            assert(cur.drop_first() =~= s@.subrange(i + 1, n as int));
        }
        i = i + 1;
    }
    proof {
        let cur = s@.subrange(i as int, n as int);
        assert(trim_start_spec(cur) == cur);
    }
    i
}

/// `s` with leading and trailing whitespace removed, as `str::trim` returns
/// it.
pub fn trim_str<'a>(s: &'a str) -> (r: &'a str)
    ensures
        r@ == trim_spec(s@),
{
    let a = trim_start_index(s);
    let b = trim_end_in_suffix(s, a);
    s.substring_char(a, b)
}

/// Every line of `message` trimmed at its end, the lines joined again with
/// the platform line ending, as the original byte streams are displayed in a
/// report.
pub fn remove_trailing_whitespaces(message: &str) -> (r: String)
    ensures
        r@ == trimmed_lines_spec(message@),
    decreases message@.len(),
{
    let ghost s = message@;
    let ghost f = |l: Seq<char>| trim_end_spec(l);
    let n = message.unicode_len();
    if n == 0 {
        proof {
            assert(split_lines(s).map_values(f) =~= Seq::<Seq<char>>::empty());
        }
        return String::new();
    }
    let i = find_newline(message);
    proof {
        lemma_find_char(s, '\n');
    }
    if i == n {
        // A single line, closed by the end of the string: `str::lines`
        // keeps a trailing carriage return here, but trimming removes it
        // either way.
        let j = trim_end_index(message, n);
        proof {
            assert(s.subrange(0, n as int) =~= s);
            assert(split_lines(s) =~= seq![s]);
            assert(split_lines(s).map_values(f) =~= seq![trim_end_spec(s)]);
        }
        let piece = message.substring_char(0, j);
        piece.to_owned()
    } else {
        let j = trim_end_index(message, i);
        let ghost line = s.subrange(0, i as int);
        let ghost rest_s = s.subrange(i + 1, n as int);
        proof {
            assert(s.take(i as int) =~= line);
            assert(s.skip(i + 1) =~= rest_s);
            lemma_trim_end_strip_cr(line);
            assert(split_lines(s) == seq![strip_cr(line)] + split_lines(rest_s));
        }
        let head = message.substring_char(0, j);
        let mut out = head.to_owned();
        if i + 1 == n {
            // A trailing newline closes the last line and opens no new one.
            proof {
                assert(rest_s.len() == 0);
                assert(split_lines(s).map_values(f) =~= seq![trim_end_spec(line)]);
            }
            out
        } else {
            let tail = message.substring_char(i + 1, n);
            let rest = remove_trailing_whitespaces(tail);
            out.append("\n");
            out.append(rest.as_str());
            proof {
                let mapped = split_lines(s).map_values(f);
                let rest_mapped = split_lines(rest_s).map_values(f);
                lemma_split_lines_nonempty(rest_s);
                assert(mapped.len() == 1 + rest_mapped.len());
                assert(mapped[0] == trim_end_spec(strip_cr(line)));
                assert(mapped.drop_first() =~= rest_mapped);
                assert(join_with(mapped, seq!['\n']) == mapped[0] + seq!['\n'] + join_with(
                    rest_mapped,
                    seq!['\n'],
                ));
                assert("\n"@ =~= seq!['\n']) by {
                    reveal_strlit("\n");
                }
                assert(out@ == trim_end_spec(line) + seq!['\n'] + trimmed_lines_spec(rest_s));
            }
            out
        }
    }
}

/// The least upper bound `b` such that `s` between `from` and `b` is `s`
/// from `from` on with its trailing whitespace removed.
fn trim_end_in_suffix(s: &str, from: usize) -> (b: usize)
    requires
        from <= s@.len(),
    ensures
        from <= b <= s@.len(),
        s@.subrange(from as int, b as int) == trim_end_spec(
            s@.subrange(from as int, s@.len() as int),
        ),
{
    let n = s.unicode_len();
    let mut b: usize = n;
    while b > from && is_whitespace_char(s.get_char(b - 1))
        invariant
            from <= b <= n,
            n == s@.len(),
            trim_end_spec(s@.subrange(from as int, n as int)) == trim_end_spec(
                s@.subrange(from as int, b as int),
            ),
        decreases b,
    {
        proof {
            let cur = s@.subrange(from as int, b as int);
            assert(cur.last() == s@[b - 1]);
            assert(cur.drop_last() =~= s@.subrange(from as int, b - 1));
        }
        b = b - 1;
    }
    proof {
        let cur = s@.subrange(from as int, b as int);
        assert(trim_end_spec(cur) == cur);
    }
    b
}

/// The index of the last occurrence of `c` in `s`, or `None` when there is
/// none.
pub fn rfind_char(s: &str, c: char) -> (r: Option<usize>)
    ensures
        match r {
            Some(i) => i == last_index_of(s@, c) && i < s@.len(),
            None => last_index_of(s@, c) == -1,
        },
{
    let n = s.unicode_len();
    let mut j: usize = n;
    while j > 0
        invariant
            j <= n,
            n == s@.len(),
            forall|k: int| j <= k < n ==> s@[k] != c,
        decreases j,
    {
        if s.get_char(j - 1) == c {
            proof {
                lemma_last_index_of_is(s@, c, j - 1);
            }
            return Some(j - 1);
        }
        j = j - 1;
    }
    proof {
        lemma_last_index_of_is(s@, c, -1);
    }
    None
}

/// Relies on `std::str::from_utf8`: it returns `Ok` exactly on valid UTF-8
/// input, and then the decoding of that input.
#[verifier::external_body]
fn decode_bytes(bytes: &[u8]) -> (r: Option<&str>)
    ensures
        r is Some <==> valid_utf8(bytes@),
        r is Some ==> r->0@ == decode_utf8(bytes@),
{
    std::str::from_utf8(bytes).ok()
}

/// The captured byte stream decoded and normalized for a report: the whole
/// text trimmed, then every line trimmed at its end. `None` when the bytes
/// are not valid UTF-8, which is fatal for the classification of the tool
/// that produced them.
pub fn format_output(message: &[u8]) -> (r: Option<String>)
    ensures
        r is Some <==> valid_utf8(message@),
        r is Some ==> r->0@ == formatted(message@),
{
    match decode_bytes(message) {
        Some(text) => Some(remove_trailing_whitespaces(trim_str(text))),
        None => None,
    }
}

/// The decimal digit `d` as a character.
pub open spec fn dec_digit(d: nat) -> char {
    if d == 0 {
        '0'
    } else if d == 1 {
        '1'
    } else if d == 2 {
        '2'
    } else if d == 3 {
        '3'
    } else if d == 4 {
        '4'
    } else if d == 5 {
        '5'
    } else if d == 6 {
        '6'
    } else if d == 7 {
        '7'
    } else if d == 8 {
        '8'
    } else {
        '9'
    }
}

/// The decimal notation of `n`, most significant digit first.
pub open spec fn dec_str(n: nat) -> Seq<char>
    decreases n,
{
    if n < 10 {
        seq![dec_digit(n)]
    } else {
        dec_str(n / 10).push(dec_digit(n % 10))
    }
}

fn dec_digit_str(d: u16) -> (r: &'static str)
    requires
        d < 10,
    ensures
        r@ == seq![dec_digit(d as nat)],
{
    proof {
        reveal_strlit("0");
        reveal_strlit("1");
        reveal_strlit("2");
        reveal_strlit("3");
        reveal_strlit("4");
        reveal_strlit("5");
        reveal_strlit("6");
        reveal_strlit("7");
        reveal_strlit("8");
        reveal_strlit("9");
    }
    if d == 0 {
        "0"
    } else if d == 1 {
        "1"
    } else if d == 2 {
        "2"
    } else if d == 3 {
        "3"
    } else if d == 4 {
        "4"
    } else if d == 5 {
        "5"
    } else if d == 6 {
        "6"
    } else if d == 7 {
        "7"
    } else if d == 8 {
        "8"
    } else {
        "9"
    }
}

/// The decimal notation of `n`.
pub fn u16_to_decimal(n: u16) -> (r: String)
    ensures
        r@ == dec_str(n as nat),
    decreases n,
{
    if n < 10 {
        dec_digit_str(n).to_owned()
    } else {
        let mut r = u16_to_decimal(n / 10);
        r.append(dec_digit_str(n % 10));
        proof {
            assert(r@ =~= dec_str((n / 10) as nat).push(dec_digit((n % 10) as nat)));
        }
        r
    }
}

} // verus!
