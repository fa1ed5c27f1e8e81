//! Decimal integers and whitespace trimming over character sequences.

use vstd::prelude::*;
use vstd::string::StringExecFns;
use vstd::string::StrSliceExecFns;

verus! {

/// Whether `c` is an ASCII decimal digit.
pub open spec fn is_digit(c: char) -> bool {
    '0' <= c && c <= '9'
}

/// The value of a decimal digit.
pub open spec fn digit_value(c: char) -> int {
    c as int - '0' as int
}

/// Every character of `s` is a decimal digit.
pub open spec fn all_digits(s: Seq<char>) -> bool {
    forall|i: int| 0 <= i < s.len() ==> is_digit(#[trigger] s[i])
}

/// The value of a string of decimal digits, most significant first.
pub open spec fn digits_value(s: Seq<char>) -> int
    decreases s.len(),
{
    if s.len() == 0 {
        0
    } else {
        digits_value(s.drop_last()) * 10 + digit_value(s.last())
    }
}

/// The digit character for `d` in `0..10`.
pub open spec fn digit_char(d: int) -> char {
    if d == 0 { '0' }
    else if d == 1 { '1' }
    else if d == 2 { '2' }
    else if d == 3 { '3' }
    else if d == 4 { '4' }
    else if d == 5 { '5' }
    else if d == 6 { '6' }
    else if d == 7 { '7' }
    else if d == 8 { '8' }
    else { '9' }
}

/// The shortest decimal digits of `n`.
pub open spec fn nat_digits(n: nat) -> Seq<char>
    decreases n,
{
    if n < 10 {
        seq![digit_char(n as int)]
    } else {
        nat_digits(n / 10).push(digit_char((n % 10) as int))
    }
}

/// The decimal text of an integer: a minus sign for negative values, then digits.
pub open spec fn decimal_text(v: int) -> Seq<char> {
    if v < 0 {
        seq!['-'] + nat_digits((-v) as nat)
    } else {
        nat_digits(v as nat)
    }
}

/// Whether `s` starts with a sign character.
pub open spec fn has_sign(s: Seq<char>) -> bool {
    s.len() > 0 && (s[0] == '-' || s[0] == '+')
}

/// `s` without its sign character, if it has one.
pub open spec fn unsigned_part(s: Seq<char>) -> Seq<char> {
    if has_sign(s) { s.subrange(1, s.len() as int) } else { s }
}

/// The integer that a sign and digits denote.
pub open spec fn signed_value(s: Seq<char>) -> int {
    if has_sign(s) && s[0] == '-' {
        -digits_value(unsigned_part(s))
    } else {
        digits_value(unsigned_part(s))
    }
}

/// The value that `s` denotes as a 32-bit signed decimal: an optional sign
/// (`+` or `-`) followed by at least one digit, and nothing else; `None` when
/// the text has another shape or the value does not fit.
pub open spec fn parse_i32_spec(s: Seq<char>) -> Option<i32> {
    if unsigned_part(s).len() > 0 && all_digits(unsigned_part(s)) && i32::MIN <= signed_value(s)
        <= i32::MAX {
        Some(signed_value(s) as i32)
    } else {
        None
    }
}

/// Unicode White_Space, the set that `char::is_whitespace` tests.
pub open spec fn is_white_space(c: char) -> bool {
    ('\u{9}' <= c && c <= '\u{d}') || c == ' ' || c == '\u{85}' || c == '\u{a0}'
        || c == '\u{1680}' || ('\u{2000}' <= c && c <= '\u{200a}') || c == '\u{2028}'
        || c == '\u{2029}' || c == '\u{202f}' || c == '\u{205f}' || c == '\u{3000}'
}

/// `s` without its trailing white space.
pub open spec fn trim_end_spec(s: Seq<char>) -> Seq<char>
    decreases s.len(),
{
    if s.len() > 0 && is_white_space(s.last()) {
        trim_end_spec(s.drop_last())
    } else {
        s
    }
}

proof fn lemma_digit_char(d: int)
    requires
        0 <= d < 10,
    ensures
        is_digit(digit_char(d)),
        digit_value(digit_char(d)) == d,
{
}

/// The digits of `n` are digits, and read back as `n`.
pub proof fn lemma_nat_digits(n: nat)
    ensures
        nat_digits(n).len() > 0,
        all_digits(nat_digits(n)),
        digits_value(nat_digits(n)) == n,
        is_digit(nat_digits(n)[0]),
    decreases n,
{
    if n < 10 {
        lemma_digit_char(n as int);
        assert(nat_digits(n).drop_last() =~= Seq::<char>::empty());
        assert(digits_value(Seq::<char>::empty()) == 0);
    } else {
        lemma_nat_digits(n / 10);
        lemma_digit_char((n % 10) as int);
        let s = nat_digits(n);
        assert(s.drop_last() =~= nat_digits(n / 10));
        assert(s.last() == digit_char((n % 10) as int));
        assert(n == (n / 10) * 10 + n % 10);
        assert(all_digits(s)) by {
            assert forall|i: int| 0 <= i < s.len() implies is_digit(#[trigger] s[i]) by {
                if i < s.len() - 1 {
                    assert(s[i] == nat_digits(n / 10)[i]);
                }
            }
        }
        assert(s[0] == nat_digits(n / 10)[0]);
    }
}

/// Reading the decimal text of any 32-bit integer gives the integer back.
pub proof fn lemma_decimal_round_trip(v: i32)
    ensures
        parse_i32_spec(decimal_text(v as int)) == Some(v),
{
    let s = decimal_text(v as int);
    if v < 0 {
        let m = (-(v as int)) as nat;
        lemma_nat_digits(m);
        assert(unsigned_part(s) =~= nat_digits(m));
    } else {
        lemma_nat_digits(v as nat);
    }
}

proof fn lemma_digits_prefix_grows(s: Seq<char>, i: int)
    requires
        0 <= i < s.len(),
        all_digits(s),
    ensures
        digits_value(s.subrange(0, i + 1)) == digits_value(s.subrange(0, i)) * 10 + digit_value(s[i]),
        digits_value(s.subrange(0, i + 1)) >= digits_value(s.subrange(0, i)),
{
    assert(s.subrange(0, i + 1).drop_last() =~= s.subrange(0, i));
    lemma_digits_nonneg(s.subrange(0, i));
}

proof fn lemma_digits_nonneg(s: Seq<char>)
    requires
        all_digits(s),
    ensures
        digits_value(s) >= 0,
    decreases s.len(),
{
    if s.len() > 0 {
        assert(all_digits(s.drop_last()));
        lemma_digits_nonneg(s.drop_last());
    }
}

proof fn lemma_digits_monotone(s: Seq<char>, i: int, j: int)
    requires
        0 <= i <= j <= s.len(),
        all_digits(s),
    ensures
        digits_value(s.subrange(0, j)) >= digits_value(s.subrange(0, i)),
    decreases j - i,
{
    if i < j {
        lemma_digits_monotone(s, i, j - 1);
        lemma_digits_prefix_grows(s, j - 1);
    }
}

/// The text of one decimal digit.
fn digit_str(d: u32) -> (r: &'static str)
    requires
        d < 10,
    ensures
        r@ == seq![digit_char(d as int)],
{
    if d == 0 {
        proof { reveal_strlit("0"); }
        "0"
    } else if d == 1 {
        proof { reveal_strlit("1"); }
        "1"
    } else if d == 2 {
        proof { reveal_strlit("2"); }
        "2"
    } else if d == 3 {
        proof { reveal_strlit("3"); }
        "3"
    } else if d == 4 {
        proof { reveal_strlit("4"); }
        "4"
    } else if d == 5 {
        proof { reveal_strlit("5"); }
        "5"
    } else if d == 6 {
        proof { reveal_strlit("6"); }
        "6"
    } else if d == 7 {
        proof { reveal_strlit("7"); }
        "7"
    } else if d == 8 {
        proof { reveal_strlit("8"); }
        "8"
    } else {
        proof { reveal_strlit("9"); }
        "9"
    }
}

/// The shortest decimal digits of `n`.
pub fn unsigned_text(n: u32) -> (r: String)
    ensures
        r@ == nat_digits(n as nat),
    decreases n,
{
    if n < 10 {
        String::from_str(digit_str(n))
    } else {
        let head = unsigned_text(n / 10);
        head.concat(digit_str(n % 10))
    }
}

/// The decimal text of a 32-bit signed integer.
pub fn decimal_string(v: i32) -> (r: String)
    ensures
        r@ == decimal_text(v as int),
{
    if v < 0 {
        let m: u32 = if v == i32::MIN { 2147483648u32 } else { (-v) as u32 };
        let digits = unsigned_text(m);
        proof { reveal_strlit("-"); }
        let r = String::from_str("-").concat(digits.as_str());
        assert(r@ =~= seq!['-'] + nat_digits(m as nat));
        r
    } else {
        unsigned_text(v as u32)
    }
}

/// Reads a 32-bit signed decimal: an optional sign, then one or more digits.
pub fn parse_i32(s: &str) -> (r: Option<i32>)
    ensures
        r == parse_i32_spec(s@),
{
    let n = s.unicode_len();
    let mut start: usize = 0;
    let mut negative = false;
    if n > 0 {
        let c0 = s.get_char(0);
        if c0 == '-' || c0 == '+' {
            start = 1;
            negative = c0 == '-';
        }
    }
    let ghost body = s@.subrange(start as int, n as int);
    assert(body =~= unsigned_part(s@));
    assert((s@.len() > 0 && (s@[0] == '-' || s@[0] == '+')) == (start == 1));
    assert(negative == (start == 1 && s@[0] == '-'));
    if start >= n {
        return None;
    }
    let mut acc: u64 = 0;
    let mut i: usize = start;
    while i < n
        invariant
            start <= i <= n,
            n == s@.len(),
            body == s@.subrange(start as int, n as int),
            body == unsigned_part(s@),
            negative == (has_sign(s@) && s@[0] == '-'),
            all_digits(body.subrange(0, i - start)),
            acc == digits_value(body.subrange(0, i - start)),
            acc <= 2147483648u64,
        decreases n - i,
    {
        let c = s.get_char(i);
        if !('0' <= c && c <= '9') {
            assert(!all_digits(body)) by {
                assert(body[i - start] == s@[i as int]);
                assert(!is_digit(body[i - start]));
            }

            return None;
        }
        let d = (c as u32 - '0' as u32) as u64;
        proof {
            let k = i - start;
            assert(body.subrange(0, k + 1).drop_last() =~= body.subrange(0, k));
            assert(body.subrange(0, k + 1).last() == c);
            assert(all_digits(body.subrange(0, k + 1))) by {
                assert forall|j: int| 0 <= j < k + 1 implies is_digit(#[trigger] body.subrange(0, k + 1)[j]) by {
                    if j < k {
                        assert(body.subrange(0, k + 1)[j] == body.subrange(0, k)[j]);
                    }
                }
            }
        }
        proof {
            let k = i - start;
            assert(body[k] == c);
            assert(digits_value(body.subrange(0, k + 1)) == acc * 10 + d);
        }
        acc = acc * 10 + d;
        i = i + 1;
        if acc > 2147483648u64 {
            proof {
                let k = i - start;
                if all_digits(body) {
                    assert(body.subrange(0, body.len() as int) =~= body);
                    lemma_digits_monotone(body, k, body.len() as int);
                    assert(digits_value(body) > 2147483648);
                }
            }
            return None;
        }
    }
    proof {
        assert(body.subrange(0, n - start) =~= body);
    }
    if negative {
        Some((0i64 - acc as i64) as i32)
    } else if acc <= 2147483647u64 {
        Some(acc as i32)
    } else {
        None
    }
}

/// The value of an unsigned decimal: an optional `+`, then one or more
/// digits, and nothing else; `None` when the text has another shape or the
/// value exceeds `max`.
pub open spec fn parse_unsigned_spec(s: Seq<char>, max: int) -> Option<int> {
    let body = plus_stripped(s);
    if body.len() > 0 && all_digits(body) && digits_value(body) <= max {
        Some(digits_value(body))
    } else {
        None
    }
}

/// `s` without a leading `+`, if it has one.
pub open spec fn plus_stripped(s: Seq<char>) -> Seq<char> {
    if s.len() > 0 && s[0] == '+' { s.subrange(1, s.len() as int) } else { s }
}

/// An unsigned decimal that reads at all reads as a value in `0..=max`.
pub proof fn lemma_parse_unsigned_range(s: Seq<char>, max: int)
    ensures
        parse_unsigned_spec(s, max) matches Some(v) ==> 0 <= v <= max,
{
    if parse_unsigned_spec(s, max) is Some {
        lemma_digits_nonneg(plus_stripped(s));
    }
}

/// Reads an unsigned decimal no greater than `max`.
pub fn parse_unsigned(s: &str, max: u64) -> (r: Option<u64>)
    ensures
        match parse_unsigned_spec(s@, max as int) {
            Some(v) => r == Some(v as u64),
            None => r is None,
        },
        r matches Some(v) ==> v <= max,
{
    proof {
        lemma_parse_unsigned_range(s@, max as int);
    }
    let n = s.unicode_len();
    let mut start: usize = 0;
    if n > 0 && s.get_char(0) == '+' {
        start = 1;
    }
    let ghost body = s@.subrange(start as int, n as int);
    assert(start == 1 ==> body =~= s@.subrange(1, s@.len() as int));
    assert(start == 0 ==> body =~= s@);
    assert(body =~= plus_stripped(s@));
    if start >= n {
        return None;
    }
    let mut acc: u128 = 0;
    let mut i: usize = start;
    while i < n
        invariant
            start <= i <= n,
            n == s@.len(),
            body == s@.subrange(start as int, n as int),
            all_digits(body.subrange(0, i - start)),
            acc == digits_value(body.subrange(0, i - start)),
            acc <= max,
            body == plus_stripped(s@),
        decreases n - i,
    {
        let c = s.get_char(i);
        if !('0' <= c && c <= '9') {
            assert(!all_digits(body)) by {
                assert(body[i - start] == s@[i as int]);
                assert(!is_digit(body[i - start]));
            }
            return None;
        }
        let d = (c as u32 - '0' as u32) as u128;
        proof {
            let k = i - start;
            assert(body.subrange(0, k + 1).drop_last() =~= body.subrange(0, k));
            assert(body[k] == c);
            assert(all_digits(body.subrange(0, k + 1))) by {
                assert forall|j: int| 0 <= j < k + 1 implies is_digit(#[trigger] body.subrange(0, k + 1)[j]) by {
                    if j < k {
                        assert(body.subrange(0, k + 1)[j] == body.subrange(0, k)[j]);
                    }
                }
            }
            assert(digits_value(body.subrange(0, k + 1)) == acc * 10 + d);
        }
        acc = acc * 10 + d;
        i = i + 1;
        if acc > max as u128 {
            proof {
                let k = i - start;
                if all_digits(body) {
                    assert(body.subrange(0, body.len() as int) =~= body);
                    lemma_digits_monotone(body, k, body.len() as int);
                }
            }
            return None;
        }
    }
    proof {
        assert(body.subrange(0, n - start) =~= body);
    }
    Some(acc as u64)
}

/// `s` without its leading white space.
pub open spec fn trim_start_spec(s: Seq<char>) -> Seq<char>
    decreases s.len(),
{
    if s.len() > 0 && is_white_space(s[0]) {
        trim_start_spec(s.subrange(1, s.len() as int))
    } else {
        s
    }
}

/// `s` without its leading and trailing white space.
pub fn trim(s: &str) -> (r: String)
    ensures
        r@ == trim_start_spec(trim_end_spec(s@)),
{
    let t = trim_end(s);
    let n = t.as_str().unicode_len();
    let mut start: usize = 0;
    assert(t@.subrange(0, n as int) =~= t@);
    while start < n && is_whitespace(t.as_str().get_char(start))
        invariant
            start <= n,
            n == t@.len(),
            trim_start_spec(t@) == trim_start_spec(t@.subrange(start as int, n as int)),
        decreases n - start,
    {
        proof {
            let u = t@.subrange(start as int, n as int);
            assert(u.subrange(1, u.len() as int) =~= t@.subrange(start + 1, n as int));
        }
        start = start + 1;
    }
    String::from_str(t.as_str().substring_char(start, n))
}

/// `s` cut at each line feed: the pieces between them, the last one
/// possibly empty.
pub open spec fn newline_pieces(s: Seq<char>) -> Seq<Seq<char>>
    decreases s.len(),
{
    if s.len() == 0 {
        seq![Seq::<char>::empty()]
    } else if s.last() == '\n' {
        newline_pieces(s.drop_last()).push(Seq::empty())
    } else {
        let p = newline_pieces(s.drop_last());
        p.update(p.len() - 1, p.last().push(s.last()))
    }
}

/// A piece that a line feed ended, without the carriage return before it.
pub open spec fn without_cr(l: Seq<char>) -> Seq<char> {
    if l.len() > 0 && l.last() == '\r' { l.drop_last() } else { l }
}

/// The lines of `s`: each line feed, or carriage return and line feed, ends a
/// line; the last line needs no ending, and an empty one after the last
/// ending is not a line.
pub open spec fn lines_spec(s: Seq<char>) -> Seq<Seq<char>> {
    let p = newline_pieces(s);
    let ended = p.drop_last().map_values(|l: Seq<char>| without_cr(l));
    if p.last().len() == 0 { ended } else { ended.push(p.last()) }
}

proof fn lemma_pieces_nonempty(s: Seq<char>)
    ensures
        newline_pieces(s).len() >= 1,
    decreases s.len(),
{
    if s.len() > 0 {
        lemma_pieces_nonempty(s.drop_last());
    }
}

/// The lines of `s`.
pub fn split_lines(s: &str) -> (r: Vec<String>)
    ensures
        r@.map_values(|l: String| l@) == lines_spec(s@),
{
    let n = s.unicode_len();
    let mut done: Vec<String> = Vec::new();
    let mut start: usize = 0;
    let mut i: usize = 0;
    assert(s@.subrange(0, 0) =~= Seq::<char>::empty());
    assert(s@.subrange(0, 0) =~= s@.subrange(0, 0));
    while i < n
        invariant
            start <= i <= n,
            n == s@.len(),
            newline_pieces(s@.subrange(0, i as int)).drop_last().map_values(|l: Seq<char>| without_cr(l))
                == done@.map_values(|l: String| l@),
            newline_pieces(s@.subrange(0, i as int)).last() == s@.subrange(start as int, i as int),
        decreases n - i,
    {
        let ghost pre = s@.subrange(0, i as int);
        let ghost post = s@.subrange(0, i + 1);
        proof {
            assert(post.drop_last() =~= pre);
            assert(post.last() == s@[i as int]);
            lemma_pieces_nonempty(pre);
        }
        if s.get_char(i) == '\n' {
            let mut end = i;
            if i > start && s.get_char(i - 1) == '\r' {
                end = i - 1;
            }
            let line = String::from_str(s.substring_char(start, end));
            let ghost before = done@;
            done.push(line);
            proof {
                let piece = s@.subrange(start as int, i as int);
                assert(newline_pieces(post) == newline_pieces(pre).push(Seq::empty()));
                assert(newline_pieces(post).drop_last() =~= newline_pieces(pre));
                assert(line@ == without_cr(piece)) by {
                    if i > start && s@[i - 1] == '\r' {
                        assert(piece.last() == s@[i - 1]);
                        assert(piece.drop_last() =~= s@.subrange(start as int, i - 1));
                    } else {
                        assert(s@.subrange(start as int, i as int) =~= piece);
                    }
                }
                assert(newline_pieces(pre) =~= newline_pieces(pre).drop_last().push(newline_pieces(pre).last()));
                assert(newline_pieces(pre).map_values(|l: Seq<char>| without_cr(l)) =~= newline_pieces(
                    pre,
                ).drop_last().map_values(|l: Seq<char>| without_cr(l)).push(without_cr(piece)));
                assert(done@.map_values(|l: String| l@) =~= before.map_values(|l: String| l@).push(line@));
                assert(s@.subrange((i + 1) as int, (i + 1) as int) =~= Seq::<char>::empty());
            }
            start = i + 1;
        } else {
            proof {
                let p = newline_pieces(pre);
                assert(newline_pieces(post) == p.update(p.len() - 1, p.last().push(s@[i as int])));
                assert(newline_pieces(post).drop_last() =~= p.drop_last());
                assert(s@.subrange(start as int, i + 1) =~= s@.subrange(start as int, i as int).push(s@[i as int]));
            }
        }
        i = i + 1;
    }
    assert(s@.subrange(0, n as int) =~= s@);
    if start < n {
        let ghost before = done@;
        done.push(String::from_str(s.substring_char(start, n)));
        proof {
            assert(done@.map_values(|l: String| l@) =~= before.map_values(|l: String| l@).push(
                s@.subrange(start as int, n as int),
            ));
        }
    }
    done
}

/// Whether `c` is Unicode white space.
pub fn is_whitespace(c: char) -> (r: bool)
    ensures
        r == is_white_space(c),
{
    ('\u{9}' <= c && c <= '\u{d}') || c == ' ' || c == '\u{85}' || c == '\u{a0}'
        || c == '\u{1680}' || ('\u{2000}' <= c && c <= '\u{200a}') || c == '\u{2028}'
        || c == '\u{2029}' || c == '\u{202f}' || c == '\u{205f}' || c == '\u{3000}'
}

/// `s` without its trailing white space.
pub fn trim_end(s: &str) -> (r: String)
    ensures
        r@ == trim_end_spec(s@),
{
    let n = s.unicode_len();
    let mut end: usize = n;
    assert(s@.subrange(0, n as int) =~= s@);
    while end > 0 && is_whitespace(s.get_char(end - 1))
        invariant
            end <= n,
            n == s@.len(),
            trim_end_spec(s@) == trim_end_spec(s@.subrange(0, end as int)),
        decreases end,
    {
        proof {
            let t = s@.subrange(0, end as int);
            assert(t.drop_last() =~= s@.subrange(0, end - 1));
        }
        end = end - 1;
    }
    proof {
        let t = s@.subrange(0, end as int);
        if end > 0 {
            assert(t.last() == s@[end - 1]);
        }
    }
    String::from_str(s.substring_char(0, end))
}

} // verus!
