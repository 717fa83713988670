//! Reading users out of command text: mentions such as `<@123>` or `<@!123>`,
//! and bare ids of 16 to 20 digits, found by the pattern below.
use vstd::prelude::*;
use vstd::string::*;

verus! {

/// Error for text in which no user was found.
#[derive(PartialEq, Eq, Structural, Clone, Copy, Debug, Default)]
pub struct InvalidUserId;

impl InvalidUserId {
    /// The message shown for the error.
    pub fn message(&self) -> (r: &'static str)
        ensures
            r@ == "No valid User IDs or mentions were found."@,
    {
        "No valid User IDs or mentions were found."
    }
}

/// The matches of the regular expression `pattern` in `text`, left to right
/// and not overlapping: for each, the digits of its second or else its third
/// group; and the text after the end of the last match (all of it when none).
pub uninterp spec fn regex_digit_captures(pattern: Seq<char>, text: Seq<char>) -> (Seq<Seq<char>>, Seq<char>);

/// Relies on `regex::Regex::new` and `regex::Regex::captures_iter`: every
/// match in order, its group 2 or else group 3, and where the last one ends.
/// A pattern that does not compile matches nothing.
#[verifier::external_body]
fn digit_captures<'a>(pattern: &str, text: &'a str) -> (r: (Vec<String>, &'a str))
    ensures
        (r.0@.map_values(|d: String| d@), r.1@) == regex_digit_captures(pattern@, text@),
{
    let mut digits = Vec::new();
    let mut last_end: usize = 0;
    if let Ok(re) = regex::Regex::new(pattern) {
        for caps in re.captures_iter(text) {
            if let Some(m) = caps.get(2).or_else(|| caps.get(3)) {
                digits.push(m.as_str().to_string());
            }
            last_end = caps.get(0).map_or(last_end, |m| m.end());
        }
    }
    (digits, &text[last_end..])
}

/// Characters of the Unicode `White_Space` property.
pub open spec fn white_space(c: char) -> bool {
    ('\u{9}' <= c && c <= '\u{d}') || c == ' ' || c == '\u{85}' || c == '\u{a0}' || c == '\u{1680}' || ('\u{2000}' <= c
        && c <= '\u{200a}') || c == '\u{2028}' || c == '\u{2029}' || c == '\u{202f}' || c == '\u{205f}' || c == '\u{3000}'
}

fn is_white_space(c: char) -> (r: bool)
    ensures
        r == white_space(c),
{
    ('\u{9}' <= c && c <= '\u{d}') || c == ' ' || c == '\u{85}' || c == '\u{a0}' || c == '\u{1680}' || ('\u{2000}' <= c
        && c <= '\u{200a}') || c == '\u{2028}' || c == '\u{2029}' || c == '\u{202f}' || c == '\u{205f}' || c == '\u{3000}'
}

/// `s` without its leading white space.
pub open spec fn trim_start_of(s: Seq<char>) -> Seq<char>
    decreases s.len(),
{
    if s.len() > 0 && white_space(s[0]) {
        trim_start_of(s.drop_first())
    } else {
        s
    }
}

/// `s` without its leading white space.
fn trim_start(s: &str) -> (r: &str)
    ensures
        r@ == trim_start_of(s@),
{
    let n = s.unicode_len();
    let mut i: usize = 0;
    assert(s@.subrange(0, n as int) =~= s@);
    while i < n && is_white_space(s.get_char(i))
        invariant
            i <= n,
            n == s@.len(),
            trim_start_of(s@) == trim_start_of(s@.subrange(i as int, n as int)),
        decreases n - i,
    {
        proof {
            let t = s@.subrange(i as int, n as int);
            assert(t.drop_first() =~= s@.subrange(i + 1, n as int));
        }
        i += 1;
    }
    proof {
        if i == n {
            assert(s@.subrange(i as int, n as int).len() == 0);
        }
    }
    s.substring_char(i, n)
}

pub open spec fn is_digit(c: char) -> bool {
    '0' <= c && c <= '9'
}

/// The number written by the digits `d`.
pub open spec fn digits_value(d: Seq<char>) -> nat
    decreases d.len(),
{
    if d.len() == 0 {
        0
    } else {
        (digits_value(d.drop_last()) * 10 + (d.last() as int - '0' as int)) as nat
    }
}


/// The number written by positions `a..b`, when it names a user.
fn id_value(s: &str, n: usize, a: usize, b: usize) -> (r: Option<u64>)
    requires
        n == s@.len(),
        a <= b <= n,
        forall|k: int| a <= k < b ==> is_digit(#[trigger] s@[k]),
    ensures
        ({
            let v = digits_value(s@.subrange(a as int, b as int));
            r == (if 0 < v <= u64::MAX { Some(v as u64) } else { None::<u64> })
        }),
{
    let ghost d = s@.subrange(a as int, b as int);
    let mut acc: u64 = 0;
    let mut over = false;
    let mut j = a;
    while j < b
        invariant
            a <= j <= b <= n,
            n == s@.len(),
            d == s@.subrange(a as int, b as int),
            forall|k: int| a <= k < b ==> is_digit(#[trigger] s@[k]),
            !over ==> acc == digits_value(s@.subrange(a as int, j as int)),
            over ==> digits_value(s@.subrange(a as int, j as int)) > u64::MAX,
        decreases b - j,
    {
        let c = s.get_char(j);
        let dv = (c as u32 - '0' as u32) as u64;
        proof {
            assert(is_digit(s@[j as int]));
            let pre = s@.subrange(a as int, j as int);
            let next = s@.subrange(a as int, j + 1);
            assert(next.drop_last() =~= pre);
            assert(next.last() == c);
            assert(digits_value(next) == digits_value(pre) * 10 + dv);
        }
        if !over {
            if acc > (u64::MAX - dv) / 10 {
                over = true;
                assert(acc * 10 + dv > u64::MAX) by (nonlinear_arith)
                    requires
                        acc > (u64::MAX - dv) / 10,
                        dv <= 9,
                ;
            } else {
                assert(acc * 10 + dv <= u64::MAX) by (nonlinear_arith)
                    requires
                        acc <= (u64::MAX - dv) / 10,
                        dv <= 9,
                ;
                acc = acc * 10 + dv;
            }
        } else {
            proof {
                let pre = s@.subrange(a as int, j as int);
                assert(digits_value(pre) * 10 + dv >= digits_value(pre)) by (nonlinear_arith);
            }
        }
        j += 1;
    }
    if over || acc == 0 {
        None
    } else {
        Some(acc)
    }
}

/// The user named by the digits `d`: ASCII digits only, a number from 1 to
/// the largest `u64`.
pub open spec fn user_of_digits(d: Seq<char>) -> Option<u64> {
    if d.len() > 0 && (forall|k: int| 0 <= k < d.len() ==> is_digit(#[trigger] d[k])) && 0 < digits_value(d)
        <= u64::MAX {
        Some(digits_value(d) as u64)
    } else {
        None
    }
}

/// The users named by `ds`, in order, skipping digits that name none.
pub open spec fn users_of(ds: Seq<Seq<char>>) -> Seq<u64>
    decreases ds.len(),
{
    if ds.len() == 0 {
        Seq::empty()
    } else {
        users_of(ds.drop_last()) + match user_of_digits(ds.last()) {
            Some(u) => seq![u],
            None => Seq::empty(),
        }
    }
}

fn user_of(d: &str) -> (r: Option<u64>)
    ensures
        r == user_of_digits(d@),
{
    let n = d.unicode_len();
    if n == 0 {
        return None;
    }
    let mut i: usize = 0;
    while i < n
        invariant
            i <= n,
            n == d@.len(),
            forall|k: int| 0 <= k < i ==> is_digit(#[trigger] d@[k]),
        decreases n - i,
    {
        let c = d.get_char(i);
        if !('0' <= c && c <= '9') {
            return None;
        }
        i += 1;
    }
    let r = id_value(d, n, 0, n);
    assert(d@.subrange(0, n as int) =~= d@);
    r
}

/// The mentions and bare ids: `<@digits>`, `<@!digits>`, or 16 to 20 digits.
pub open spec fn mention_pattern() -> Seq<char> {
    "(<@!?(\\d+)>)|(\\d{16,20})"@
}

/// Reads every user mention or bare id from `mention`. Returns what follows
/// the last match, without leading white space, and the users in order;
/// none when no user was found.
pub fn parse_user_mentions(mention: &str) -> (r: Option<(&str, Vec<u64>)>)
    ensures
        ({
            let (ds, rest) = regex_digit_captures(mention_pattern(), mention@);
            let ids = users_of(ds);
            match r {
                Some((tail, users)) => {
                    &&& ids.len() > 0
                    &&& users@ == ids
                    &&& tail@ == trim_start_of(rest)
                },
                None => ids.len() == 0,
            }
        }),
{
    let (digits, rest) = digit_captures("(<@!?(\\d+)>)|(\\d{16,20})", mention);
    let ghost ds = digits@.map_values(|d: String| d@);
    let mut ids: Vec<u64> = Vec::new();
    let mut i: usize = 0;
    while i < digits.len()
        invariant
            i <= digits@.len(),
            ds == digits@.map_values(|d: String| d@),
            ids@ == users_of(ds.subrange(0, i as int)),
        decreases digits.len() - i,
    {
        let ghost next = ds.subrange(0, i + 1);
        assert(next.drop_last() =~= ds.subrange(0, i as int));
        assert(next.last() == digits@[i as int]@);
        match user_of(digits[i].as_str()) {
            Some(u) => {
                ids.push(u);
            },
            None => {},
        }
        assert(ids@ =~= users_of(next));
        i += 1;
    }
    assert(ds.subrange(0, ds.len() as int) =~= ds);
    if ids.len() == 0 {
        return None;
    }
    Some((trim_start(rest), ids))
}

} // verus!
