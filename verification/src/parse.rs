//! Field splitting and hexadecimal number parsing for kernel connection tables.
use vstd::prelude::*;

verus! {

// ---------------------------------------------------------------------------
// Whitespace splitting (`str::split_whitespace`)
// ---------------------------------------------------------------------------

/// Unicode `White_Space`, as `char::is_whitespace` decides it.
pub open spec fn is_whitespace(c: char) -> bool {
    let u = c as u32;
    ||| u == 0x20
    ||| 0x09 <= u <= 0x0d
    ||| u == 0x85
    ||| u == 0xa0
    ||| u == 0x1680
    ||| 0x2000 <= u <= 0x200a
    ||| u == 0x2028
    ||| u == 0x2029
    ||| u == 0x202f
    ||| u == 0x205f
    ||| u == 0x3000
}

/// Completed words and the word being read, after scanning `s` left to right.
pub open spec fn words_state(s: Seq<char>) -> (Seq<Seq<char>>, Seq<char>)
    decreases s.len(),
{
    if s.len() == 0 {
        (seq![], seq![])
    } else {
        let (words, cur) = words_state(s.drop_last());
        let c = s.last();
        if is_whitespace(c) {
            if cur.len() > 0 {
                (words.push(cur), seq![])
            } else {
                (words, cur)
            }
        } else {
            (words, cur.push(c))
        }
    }
}

/// The maximal non-empty runs of non-whitespace characters of `s`, in order.
pub open spec fn split_whitespace(s: Seq<char>) -> Seq<Seq<char>> {
    let (words, cur) = words_state(s);
    if cur.len() > 0 {
        words.push(cur)
    } else {
        words
    }
}

/// Whether `c` is Unicode whitespace (`char::is_whitespace`).
pub fn is_whitespace_char(c: char) -> (r: bool)
    ensures
        r == is_whitespace(c),
{
    let u = c as u32;
    u == 0x20 || (0x09 <= u && u <= 0x0d) || u == 0x85 || u == 0xa0 || u == 0x1680 || (0x2000
        <= u && u <= 0x200a) || u == 0x2028 || u == 0x2029 || u == 0x202f || u == 0x205f || u
        == 0x3000
}

/// The views of a list of character vectors.
pub open spec fn char_vec_views(v: Seq<Vec<char>>) -> Seq<Seq<char>> {
    v.map_values(|w: Vec<char>| w@)
}

/// Splits `s` into whitespace-separated words.
pub fn words(s: &Vec<char>) -> (r: Vec<Vec<char>>)
    ensures
        char_vec_views(r@) == split_whitespace(s@),
{
    let mut done: Vec<Vec<char>> = Vec::new();
    let mut cur: Vec<char> = Vec::new();
    let mut i: usize = 0;
    while i < s.len()
        invariant
            i <= s.len(),
            (char_vec_views(done@), cur@) == words_state(s@.take(i as int)),
        decreases s.len() - i,
    {
        let c = s[i];
        assert(s@.take(i + 1).drop_last() =~= s@.take(i as int));
        if is_whitespace_char(c) {
            if cur.len() > 0 {
                let w = cur;
                done.push(w);
                cur = Vec::new();
                assert(char_vec_views(done@) =~= words_state(s@.take(i + 1)).0);
                assert(cur@ =~= words_state(s@.take(i + 1)).1);
            }
        } else {
            cur.push(c);
        }
        i += 1;
    }
    assert(s@.take(s.len() as int) =~= s@);
    if cur.len() > 0 {
        done.push(cur);
        assert(char_vec_views(done@) =~= split_whitespace(s@));
    }
    done
}

// ---------------------------------------------------------------------------
// Splitting on one separator (`str::split(char)`)
// ---------------------------------------------------------------------------

/// Completed fields and the field being read, after scanning `s` for `sep`.
pub open spec fn fields_state(s: Seq<char>, sep: char) -> (Seq<Seq<char>>, Seq<char>)
    decreases s.len(),
{
    if s.len() == 0 {
        (seq![], seq![])
    } else {
        let (fields, cur) = fields_state(s.drop_last(), sep);
        let c = s.last();
        if c == sep {
            (fields.push(cur), seq![])
        } else {
            (fields, cur.push(c))
        }
    }
}

/// The pieces of `s` between occurrences of `sep` (always at least one, possibly empty).
pub open spec fn split_on(s: Seq<char>, sep: char) -> Seq<Seq<char>> {
    let (fields, cur) = fields_state(s, sep);
    fields.push(cur)
}

/// Splits `s` at every `sep`.
pub fn split_fields(s: &Vec<char>, sep: char) -> (r: Vec<Vec<char>>)
    ensures
        char_vec_views(r@) == split_on(s@, sep),
{
    let mut done: Vec<Vec<char>> = Vec::new();
    let mut cur: Vec<char> = Vec::new();
    let mut i: usize = 0;
    while i < s.len()
        invariant
            i <= s.len(),
            (char_vec_views(done@), cur@) == fields_state(s@.take(i as int), sep),
        decreases s.len() - i,
    {
        let c = s[i];
        assert(s@.take(i + 1).drop_last() =~= s@.take(i as int));
        if c == sep {
            let w = cur;
            done.push(w);
            cur = Vec::new();
            assert(char_vec_views(done@) =~= fields_state(s@.take(i + 1), sep).0);
            assert(cur@ =~= fields_state(s@.take(i + 1), sep).1);
        } else {
            cur.push(c);
        }
        i += 1;
    }
    assert(s@.take(s.len() as int) =~= s@);
    done.push(cur);
    assert(char_vec_views(done@) =~= split_on(s@, sep));
    done
}

// ---------------------------------------------------------------------------
// Lines (`str::lines`)
// ---------------------------------------------------------------------------

/// A line without the carriage return of a `\r\n` ending.
pub open spec fn strip_cr(line: Seq<char>) -> Seq<char> {
    if line.len() > 0 && line.last() == '\r' {
        line.drop_last()
    } else {
        line
    }
}

/// The lines of `s`: the pieces between newlines, each without a carriage
/// return just before its newline; a final empty piece (after a last
/// newline, or of an empty text) is not a line.
pub open spec fn text_lines(s: Seq<char>) -> Seq<Seq<char>> {
    let parts = split_on(s, '\n');
    let init = parts.drop_last().map_values(|l: Seq<char>| strip_cr(l));
    if parts.last().len() == 0 {
        init
    } else {
        init.push(parts.last())
    }
}

/// The first `n` characters of `v`, copied.
pub fn prefix_chars(v: &Vec<char>, n: usize) -> (r: Vec<char>)
    requires
        n <= v.len(),
    ensures
        r@ == v@.take(n as int),
{
    let mut out: Vec<char> = Vec::new();
    let mut i: usize = 0;
    while i < n
        invariant
            i <= n,
            n <= v.len(),
            out@ == v@.take(i as int),
        decreases n - i,
    {
        out.push(v[i]);
        assert(v@.take(i as int).push(v@[i as int]) =~= v@.take(i + 1));
        i += 1;
    }
    out
}

/// Splits `s` into lines.
pub fn lines_of(s: &Vec<char>) -> (r: Vec<Vec<char>>)
    ensures
        char_vec_views(r@) == text_lines(s@),
{
    let parts = split_fields(s, '\n');
    let ghost pv = char_vec_views(parts@);
    assert(pv.len() == parts@.len());
    assert(pv.len() >= 1);
    let last = parts.len() - 1;
    let mut out: Vec<Vec<char>> = Vec::new();
    let mut i: usize = 0;
    while i < last
        invariant
            i <= last,
            last + 1 == parts.len(),
            pv == char_vec_views(parts@),
            pv == split_on(s@, '\n'),
            char_vec_views(out@) == pv.drop_last().take(i as int).map_values(|l: Seq<char>| strip_cr(l)),
        decreases last - i,
    {
        let piece = &parts[i];
        assert(pv[i as int] == piece@);
        let n = piece.len();
        let line = if n > 0 && piece[n - 1] == '\r' {
            prefix_chars(piece, n - 1)
        } else {
            prefix_chars(piece, n)
        };
        assert(line@ =~= strip_cr(piece@));
        let ghost before = char_vec_views(out@);
        out.push(line);
        assert(char_vec_views(out@) =~= before.push(line@));
        assert(pv.drop_last()[i as int] == pv[i as int]);
        assert(pv.drop_last().take(i + 1) =~= pv.drop_last().take(i as int).push(pv[i as int]));
        assert(char_vec_views(out@) =~= pv.drop_last().take(i + 1).map_values(|l: Seq<char>| strip_cr(l)));
        i += 1;
    }
    assert(pv.drop_last().take(last as int) =~= pv.drop_last());
    assert(char_vec_views(out@) == pv.drop_last().map_values(|l: Seq<char>| strip_cr(l)));
    let tail = &parts[last];
    assert(pv[last as int] == tail@);
    assert(pv.last() == tail@);
    if tail.len() > 0 {
        let copy = prefix_chars(tail, tail.len());
        assert(copy@ =~= tail@);
        let ghost before = char_vec_views(out@);
        out.push(copy);
        assert(char_vec_views(out@) =~= before.push(tail@));
        assert(char_vec_views(out@) =~= text_lines(s@));
    } else {
        assert(char_vec_views(out@) =~= text_lines(s@));
    }
    out
}

// ---------------------------------------------------------------------------
// Radix-16 numbers (`from_str_radix(s, 16)` for unsigned integers)
// ---------------------------------------------------------------------------

/// `c` is a digit of radix 16 (`char::to_digit(16)` is `Some`).
pub open spec fn is_hex_digit(c: char) -> bool {
    ('0' <= c && c <= '9') || ('a' <= c && c <= 'f') || ('A' <= c && c <= 'F')
}

/// The value of a radix-16 digit.
pub open spec fn hex_digit_value(c: char) -> nat {
    if '0' <= c && c <= '9' {
        (c as u32 - 48) as nat
    } else if 'a' <= c && c <= 'f' {
        (c as u32 - 87) as nat
    } else {
        (c as u32 - 55) as nat
    }
}

/// The value of a string of radix-16 digits, most significant first.
pub open spec fn hex_digits_value(s: Seq<char>) -> nat
    decreases s.len(),
{
    if s.len() == 0 {
        0
    } else {
        hex_digits_value(s.drop_last()) * 16 + hex_digit_value(s.last())
    }
}

/// All characters of `s` are radix-16 digits.
pub open spec fn all_hex_digits(s: Seq<char>) -> bool {
    forall|i: int| 0 <= i < s.len() ==> is_hex_digit(#[trigger] s[i])
}

/// The digits after an optional leading `+`.
pub open spec fn unsigned_digits(s: Seq<char>) -> Seq<char> {
    if s.len() > 0 && s[0] == '+' {
        s.drop_first()
    } else {
        s
    }
}

/// The value that `from_str_radix(s, 16)` yields for an unsigned type whose
/// largest value is `max`, or `None` where it returns an error: no digits,
/// a character that is not a radix-16 digit, or a value above `max`.
pub open spec fn parse_radix16(s: Seq<char>, max: nat) -> Option<nat> {
    let d = unsigned_digits(s);
    if d.len() > 0 && all_hex_digits(d) && hex_digits_value(d) <= max {
        Some(hex_digits_value(d))
    } else {
        None
    }
}

/// Appending digits never makes a radix-16 value smaller.
proof fn lemma_hex_value_prefix(s: Seq<char>, k: int)
    requires
        0 <= k <= s.len(),
    ensures
        hex_digits_value(s.take(k)) <= hex_digits_value(s),
    decreases s.len() - k,
{
    if k < s.len() {
        lemma_hex_value_prefix(s, k + 1);
        assert(s.take(k + 1).drop_last() =~= s.take(k));
    } else {
        assert(s.take(k) =~= s);
    }
}

/// The value of a radix-16 digit character.
fn hex_digit(c: char) -> (r: Option<u64>)
    ensures
        r is Some <==> is_hex_digit(c),
        r matches Some(v) ==> v == hex_digit_value(c) && v < 16,
{
    if '0' <= c && c <= '9' {
        Some((c as u32 - 48) as u64)
    } else if 'a' <= c && c <= 'f' {
        Some((c as u32 - 87) as u64)
    } else if 'A' <= c && c <= 'F' {
        Some((c as u32 - 55) as u64)
    } else {
        None
    }
}

/// Parses `s` as an unsigned radix-16 number no larger than `max`.
pub fn parse_hex(s: &Vec<char>, max: u64) -> (r: Option<u64>)
    ensures
        match r {
            Some(v) => parse_radix16(s@, max as nat) == Some(v as nat),
            None => parse_radix16(s@, max as nat) is None,
        },
{
    let start: usize = if s.len() > 0 && s[0] == '+' {
        1
    } else {
        0
    };
    let ghost d = unsigned_digits(s@);
    assert(d =~= s@.subrange(start as int, s@.len() as int));
    if start == s.len() {
        return None;
    }
    let mut acc: u64 = 0;
    let mut i: usize = start;
    while i < s.len()
        invariant
            start <= i <= s.len(),
            d == unsigned_digits(s@),
            d =~= s@.subrange(start as int, s@.len() as int),
            all_hex_digits(d.take(i - start)),
            acc as nat == hex_digits_value(d.take(i - start)),
            acc <= max,
        decreases s.len() - i,
    {
        let ghost k: int = i - start;
        assert(d.take(k + 1).drop_last() =~= d.take(k));
        assert(d[k] == s@[i as int]);
        match hex_digit(s[i]) {
            None => {
                assert(!is_hex_digit(d[k]));
                assert(!all_hex_digits(d));
                assert(parse_radix16(s@, max as nat) is None);
                return None;
            },
            Some(v) => {
                if v > max || acc > (max - v) / 16 {
                    proof {
                        assert(hex_digits_value(d.take(k + 1)) == acc * 16 + v);
                        if v <= max {
                            assert(acc * 16 + v > max) by (nonlinear_arith)
                                requires
                                    acc > (max - v) / 16,
                                    v <= max,
                            ;
                        }
                        lemma_hex_value_prefix(d, k + 1);
                        assert(hex_digits_value(d) > max);
                        assert(parse_radix16(s@, max as nat) is None);
                    }
                    return None;
                }
                proof {
                    assert(acc * 16 + v <= max) by (nonlinear_arith)
                        requires
                            acc <= (max - v) / 16,
                            v <= max,
                    ;
                }
                acc = acc * 16 + v;
                assert(all_hex_digits(d.take(k + 1)));
            },
        }
        i += 1;
    }
    assert(d.take(s.len() - start) =~= d);
    Some(acc)
}

} // verus!
