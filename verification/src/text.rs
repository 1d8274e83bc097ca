//! Paths and other short texts, as sequences of characters.

use vstd::prelude::*;

verus! {

/// The separator between the segments of a path.
pub open spec fn separator() -> char {
    '/'
}

/// `rel` appended to the path `base`. An absolute `rel` replaces `base`;
/// otherwise one separator stands between the two, unless `base` is empty or
/// already ends in one.
pub open spec fn join(base: Seq<char>, rel: Seq<char>) -> Seq<char> {
    if rel.len() > 0 && rel[0] == separator() {
        rel
    } else if base.len() == 0 || base.last() == separator() {
        base + rel
    } else {
        base + seq![separator()] + rel
    }
}

/// The place of the last separator in `s`, or -1 where it holds none.
pub open spec fn last_separator(s: Seq<char>) -> int
    decreases s.len(),
{
    if s.len() == 0 {
        -1
    } else if s.last() == separator() {
        s.len() - 1
    } else {
        last_separator(s.drop_last())
    }
}

/// What `last_separator` finds: a separator with none behind it, or -1 in
/// a text without separators.
pub proof fn lemma_last_separator(s: Seq<char>)
    ensures
        -1 <= last_separator(s) < s.len(),
        last_separator(s) >= 0 ==> s[last_separator(s)] == separator(),
        forall|j: int| last_separator(s) < j < s.len() ==> s[j] != separator(),
    decreases s.len(),
{
    if s.len() > 0 && s.last() != separator() {
        let head = s.drop_last();
        lemma_last_separator(head);
        assert forall|j: int| last_separator(s) < j < s.len() implies s[j] != separator() by {
            if j < head.len() {
                assert(head[j] == s[j]);
            }
        }
    }
}

/// The directory that holds `path`: what stands before its last separator.
/// A path directly under the root has the root as its parent; a path
/// without a separator has the empty path.
pub open spec fn parent(path: Seq<char>) -> Seq<char> {
    let at = last_separator(path);
    if at < 0 {
        Seq::empty()
    } else if at == 0 {
        seq![separator()]
    } else {
        path.subrange(0, at)
    }
}

/// The last segment of `path`: what stands behind its last separator.
pub open spec fn final_segment(path: Seq<char>) -> Seq<char> {
    path.subrange(last_separator(path) + 1, path.len() as int)
}

/// Whether `s` begins with `prefix`.
pub fn has_prefix(s: &str, prefix: &str) -> (found: bool)
    ensures
        found == prefix@.is_prefix_of(s@),
{
    let n: usize = s.unicode_len();
    let m: usize = prefix.unicode_len();
    if m > n {
        return false;
    }
    let mut i: usize = 0;
    while i < m
        invariant
            i <= m <= n,
            n == s@.len(),
            m == prefix@.len(),
            forall|j: int| 0 <= j < i ==> s@[j] == prefix@[j],
        decreases m - i,
    {
        if s.get_char(i) != prefix.get_char(i) {
            assert(s@.subrange(0, m as int)[i as int] != prefix@[i as int]);
            return false;
        }
        i += 1;
    }
    assert(prefix@ =~= s@.subrange(0, m as int));
    true
}

/// Whether `s` ends with `suffix`.
pub fn has_suffix(s: &str, suffix: &str) -> (found: bool)
    ensures
        found == suffix@.is_suffix_of(s@),
{
    let n: usize = s.unicode_len();
    let m: usize = suffix.unicode_len();
    if m > n {
        return false;
    }
    let start: usize = n - m;
    let mut i: usize = 0;
    while i < m
        invariant
            i <= m <= n,
            start == n - m,
            n == s@.len(),
            m == suffix@.len(),
            forall|j: int| 0 <= j < i ==> s@[start + j] == suffix@[j],
        decreases m - i,
    {
        if s.get_char(start + i) != suffix.get_char(i) {
            assert(s@.subrange(start as int, n as int)[i as int] != suffix@[i as int]);
            return false;
        }
        i += 1;
    }
    assert(suffix@ =~= s@.subrange(start as int, n as int));
    true
}

/// Joins `rel` to `base` as `join` says.
pub fn join_path(base: &str, rel: &str) -> (path: String)
    ensures
        path@ == join(base@, rel@),
{
    let n: usize = base.unicode_len();
    let m: usize = rel.unicode_len();
    if m > 0 && rel.get_char(0) == '/' {
        return String::from_str(rel);
    }
    let mut path = String::from_str(base);
    if n > 0 && base.get_char(n - 1) != '/' {
        path.append("/");
        proof {
            reveal_strlit("/");
            assert("/"@ =~= seq![separator()]);
        }
    }
    path.append(rel);
    path
}

/// Finds the last separator of `s`.
pub fn find_last_separator(s: &str) -> (at: Option<usize>)
    ensures
        match at {
            Some(i) => i == last_separator(s@),
            None => last_separator(s@) == -1,
        },
{
    let n: usize = s.unicode_len();
    let mut i: usize = n;
    assert(s@.subrange(0, n as int) =~= s@);
    while i > 0
        invariant
            i <= n,
            n == s@.len(),
            last_separator(s@) == last_separator(s@.subrange(0, i as int)),
        decreases i,
    {
        let ghost head = s@.subrange(0, i as int);
        i -= 1;
        assert(head.drop_last() =~= s@.subrange(0, i as int));
        if s.get_char(i) == '/' {
            return Some(i);
        }
    }
    assert(s@.subrange(0, 0).len() == 0);
    None
}

/// The directory that holds `path`.
pub fn parent_dir(path: &str) -> (dir: String)
    ensures
        dir@ == parent(path@),
{
    match find_last_separator(path) {
        None => String::new(),
        Some(at) => {
            if at == 0 {
                proof {
                    reveal_strlit("/");
                    assert("/"@ =~= seq![separator()]);
                }
                String::from_str("/")
            } else {
                proof {
                    lemma_last_separator(path@);
                }
                String::from_str(path.substring_char(0, at))
            }
        },
    }
}

/// The last segment of `path`.
pub fn file_name(path: &str) -> (name: String)
    ensures
        name@ == final_segment(path@),
{
    let n: usize = path.unicode_len();
    proof {
        lemma_last_separator(path@);
    }
    match find_last_separator(path) {
        None => {
            assert(path@.subrange(0, n as int) =~= path@);
            String::from_str(path)
        },
        Some(at) => String::from_str(path.substring_char(at + 1, n)),
    }
}

/// Adds a copy of each text of `more` to the end of `texts`.
pub fn append_texts(texts: &mut Vec<String>, more: &Vec<String>)
    ensures
        final(texts).deep_view() == old(texts).deep_view() + more.deep_view(),
{
    let ghost before = texts.deep_view();
    let mut i: usize = 0;
    assert(more.deep_view().take(0) =~= Seq::empty());
    assert(before + Seq::empty() =~= before);
    while i < more.len()
        invariant
            i <= more.len(),
            texts.deep_view() == before + more.deep_view().take(i as int),
        decreases more.len() - i,
    {
        let ghost sofar = texts.deep_view();
        texts.push(more[i].clone());
        assert(texts.deep_view() =~= sofar.push(more[i as int]@));
        assert(more.deep_view().take(i + 1) =~= more.deep_view().take(i as int).push(
            more[i as int]@,
        ));
        i += 1;
    }
    assert(more.deep_view().take(i as int) =~= more.deep_view());
}

/// Whether `c` is one of the ten decimal digits.
pub open spec fn is_digit(c: char) -> bool {
    '0' <= c <= '9'
}

/// The number that the digit `c` stands for.
pub open spec fn digit_value(c: char) -> nat {
    (c as int - '0' as int) as nat
}

/// Whether `text` is a number written in decimal digits, with nothing
/// before, between or behind them.
pub open spec fn is_decimal(text: Seq<char>) -> bool {
    text.len() > 0 && forall|i: int| 0 <= i < text.len() ==> is_digit(#[trigger] text[i])
}

/// The number that the decimal digits `digits` stand for.
pub open spec fn decimal_value(digits: Seq<char>) -> nat
    decreases digits.len(),
{
    if digits.len() == 0 {
        0
    } else {
        decimal_value(digits.drop_last()) * 10 + digit_value(digits.last())
    }
}

/// More digits behind a number do not make it smaller.
pub proof fn lemma_decimal_grows(digits: Seq<char>, count: int)
    requires
        0 <= count <= digits.len(),
    ensures
        decimal_value(digits.take(count)) <= decimal_value(digits),
    decreases digits.len() - count,
{
    if count < digits.len() {
        lemma_decimal_grows(digits, count + 1);
        assert(digits.take(count + 1).drop_last() =~= digits.take(count));
    } else {
        assert(digits.take(count) =~= digits);
    }
}

/// Reads `text` as a decimal number. There is none where `text` is not
/// made of digits alone, or stands for a number too large for the machine.
pub fn parse_decimal(text: &str) -> (value: Option<usize>)
    ensures
        match value {
            Some(v) => is_decimal(text@) && v == decimal_value(text@),
            None => !is_decimal(text@) || decimal_value(text@) > usize::MAX,
        },
{
    let n: usize = text.unicode_len();
    if n == 0 {
        return None;
    }
    let mut value: usize = 0;
    let mut i: usize = 0;
    assert(text@.take(0) =~= Seq::empty());
    while i < n
        invariant
            i <= n,
            n == text@.len(),
            forall|j: int| 0 <= j < i ==> is_digit(#[trigger] text@[j]),
            value == decimal_value(text@.take(i as int)),
        decreases n - i,
    {
        let c = text.get_char(i);
        if c < '0' || c > '9' {
            assert(!is_digit(text@[i as int]));
            return None;
        }
        let digit: usize = (c as u8 - '0' as u8) as usize;
        proof {
            assert(text@.take(i + 1).drop_last() =~= text@.take(i as int));
            assert(text@.take(i + 1).last() == c);
            assert(digit == digit_value(c));
            lemma_decimal_grows(text@, i + 1);
        }
        if value > (usize::MAX - digit) / 10 {
            return None;
        }
        value = value * 10 + digit;
        i += 1;
    }
    assert(text@.take(n as int) =~= text@);
    Some(value)
}

/// The ten decimal digits, in their order.
pub const DIGITS: &'static str = "0123456789";

/// The digit that stands for `d`, a number below ten.
pub open spec fn digit_char(d: nat) -> char {
    DIGITS@[d as int]
}

/// `n` written in decimal digits, without zeros in front.
pub open spec fn decimal_text(n: nat) -> Seq<char>
    decreases n,
{
    if n < 10 {
        seq![digit_char(n)]
    } else {
        decimal_text(n / 10).push(digit_char(n % 10))
    }
}

/// `n` written in decimal digits, with a minus sign in front where it is
/// negative.
pub open spec fn integer_text(n: int) -> Seq<char> {
    if n < 0 {
        seq!['-'] + decimal_text((-n) as nat)
    } else {
        decimal_text(n as nat)
    }
}

/// What is written by `decimal_text` is read back by `decimal_value`.
pub proof fn lemma_decimal_round_trip(n: nat)
    ensures
        is_decimal(decimal_text(n)),
        decimal_value(decimal_text(n)) == n,
    decreases n,
{
    reveal_strlit("0123456789");
    let text = decimal_text(n);
    if n < 10 {
        assert(text.drop_last() =~= Seq::empty());
        assert(decimal_value(text.drop_last()) == 0);
    } else {
        lemma_decimal_round_trip(n / 10);
        assert(text.drop_last() =~= decimal_text(n / 10));
        assert(is_digit(digit_char(n % 10)));
        assert(digit_value(digit_char(n % 10)) == n % 10);
        assert forall|i: int| 0 <= i < text.len() implies is_digit(#[trigger] text[i]) by {
            if i < text.len() - 1 {
                assert(text[i] == decimal_text(n / 10)[i]);
            }
        }
    }
}

/// The digit that stands for `d`, as a text.
fn digit_text(d: u64) -> (text: &'static str)
    requires
        d < 10,
    ensures
        text@ == seq![digit_char(d as nat)],
{
    proof {
        reveal_strlit("0123456789");
        reveal_strlit("0");
        reveal_strlit("1");
        reveal_strlit("2");
        reveal_strlit("3");
        reveal_strlit("4");
        reveal_strlit("5");
        reveal_strlit("6");
        reveal_strlit("7");
        reveal_strlit("8");
        reveal_strlit("9");
    }
    let text = match d {
        0 => "0",
        1 => "1",
        2 => "2",
        3 => "3",
        4 => "4",
        5 => "5",
        6 => "6",
        7 => "7",
        8 => "8",
        _ => "9",
    };
    assert(text@ =~= seq![digit_char(d as nat)]);
    text
}

/// Writes `n` in decimal digits.
pub fn decimal(n: u64) -> (text: String)
    ensures
        text@ == decimal_text(n as nat),
    decreases n,
{
    if n < 10 {
        String::from_str(digit_text(n))
    } else {
        let mut text = decimal(n / 10);
        text.append(digit_text(n % 10));
        assert(text@ =~= decimal_text(n as nat));
        text
    }
}

/// Writes `n` in decimal digits, with its sign where it is negative.
pub fn integer(n: i32) -> (text: String)
    ensures
        text@ == integer_text(n as int),
{
    if n < 0 {
        let size: u64 = (-(n as i64)) as u64;
        let mut text = String::from_str("-");
        proof {
            reveal_strlit("-");
            assert("-"@ =~= seq!['-']);
        }
        text.append(decimal(size).as_str());
        text
    } else {
        decimal(n as u64)
    }
}

} // verus!
