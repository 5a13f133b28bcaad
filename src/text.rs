use vstd::prelude::*;
use vstd::string::*;

verus! {

/// The Unicode `White_Space` property, which `char::is_whitespace` and
/// `str::trim` go by.
pub open spec fn is_white_space(c: char) -> bool {
    let n = c as u32;
    (0x09 <= n <= 0x0d) || n == 0x20 || n == 0x85 || n == 0xa0 || n == 0x1680 || (0x2000 <= n
        <= 0x200a) || n == 0x2028 || n == 0x2029 || n == 0x202f || n == 0x205f || n == 0x3000
}

/// `s` without its leading white space.
pub open spec fn trim_start(s: Seq<char>) -> Seq<char>
    decreases s.len(),
{
    if s.len() > 0 && is_white_space(s[0]) {
        trim_start(s.drop_first())
    } else {
        s
    }
}

/// `s` without its trailing white space.
pub open spec fn trim_end(s: Seq<char>) -> Seq<char>
    decreases s.len(),
{
    if s.len() > 0 && is_white_space(s.last()) {
        trim_end(s.drop_last())
    } else {
        s
    }
}

/// `s` without white space at either end.
pub open spec fn trimmed(s: Seq<char>) -> Seq<char> {
    trim_end(trim_start(s))
}

/// Where the first `=>` at or after `from` begins in `s`; `s.len()` if none does.
pub open spec fn find_arrow(s: Seq<char>, from: int) -> int
    decreases s.len() - from,
{
    if from + 1 >= s.len() {
        s.len() as int
    } else if s[from] == '=' && s[from + 1] == '>' {
        from
    } else {
        find_arrow(s, from + 1)
    }
}

/// The search for `=>` stays within `s`, and a match leaves room for both characters.
proof fn lemma_find_arrow_bounds(s: Seq<char>, from: int)
    requires
        0 <= from <= s.len(),
    ensures
        from <= find_arrow(s, from) <= s.len(),
        find_arrow(s, from) < s.len() ==> find_arrow(s, from) + 2 <= s.len(),
    decreases s.len() - from,
{
    if from + 1 < s.len() && !(s[from] == '=' && s[from + 1] == '>') {
        lemma_find_arrow_bounds(s, from + 1);
    }
}

/// A text with no `=>` from `from` on has its search end at its length.
pub proof fn lemma_no_arrow(s: Seq<char>, from: int)
    requires
        0 <= from <= s.len(),
        forall|i: int| from <= i < s.len() - 1 ==> !(#[trigger] s[i] == '=' && s[i + 1] == '>'),
    ensures
        find_arrow(s, from) == s.len(),
    decreases s.len() - from,
{
    if from + 1 < s.len() {
        lemma_no_arrow(s, from + 1);
    }
}

/// The text before the first `=>` (all of `s` if there is none).
pub open spec fn plate_segment(s: Seq<char>) -> Seq<char> {
    s.subrange(0, find_arrow(s, 0))
}

/// The text between the first `=>` and the next one (or the end), if `s`
/// holds a `=>` at all.
pub open spec fn id_segment(s: Seq<char>) -> Option<Seq<char>> {
    let k = find_arrow(s, 0);
    if k < s.len() {
        Some(s.subrange(k + 2, find_arrow(s, k + 2)))
    } else {
        None
    }
}

/// The value of a hexadecimal digit, in either case.
pub open spec fn hex_digit_value(c: char) -> Option<nat> {
    let n = c as u32;
    if 0x30 <= n <= 0x39 {
        Some((n - 0x30) as nat)
    } else if 0x61 <= n <= 0x66 {
        Some((n - 0x61 + 10) as nat)
    } else if 0x41 <= n <= 0x46 {
        Some((n - 0x41 + 10) as nat)
    } else {
        None
    }
}

/// The number that the hexadecimal digits `s` write, most significant first.
pub open spec fn hex_number(s: Seq<char>) -> Option<nat>
    decreases s.len(),
{
    if s.len() == 0 {
        Some(0)
    } else {
        match (hex_number(s.drop_last()), hex_digit_value(s.last())) {
            (Some(high), Some(low)) => Some(high * 16 + low),
            _ => None,
        }
    }
}

/// The 32 digits of `s` in the hyphenated layout `8-4-4-4-12`.
pub open spec fn hyphenated_digits(s: Seq<char>) -> Option<Seq<char>> {
    if s.len() == 36 && s[8] == '-' && s[13] == '-' && s[18] == '-' && s[23] == '-' {
        Some(
            s.subrange(0, 8) + s.subrange(9, 13) + s.subrange(14, 18) + s.subrange(19, 23)
                + s.subrange(24, 36),
        )
    } else {
        None
    }
}

/// Whether `s` reads as the lower-case text `t` when ASCII capitals are taken
/// as small letters.
pub open spec fn matches_ignoring_case(s: Seq<char>, t: Seq<char>) -> bool {
    &&& s.len() == t.len()
    &&& forall|i: int|
        0 <= i < s.len() ==> #[trigger] s[i] == t[i] || (0x61 <= t[i] as u32 <= 0x7a && s[i] as u32
            + 32 == t[i] as u32)
}

/// The 32 hexadecimal digits of a UUID written in one of its four layouts:
/// simple, hyphenated, hyphenated in braces, or hyphenated after `urn:uuid:`.
pub open spec fn uuid_digits(s: Seq<char>) -> Option<Seq<char>> {
    if s.len() == 32 {
        Some(s)
    } else if s.len() == 36 {
        hyphenated_digits(s)
    } else if s.len() == 38 && s[0] == '{' && s[37] == '}' {
        hyphenated_digits(s.subrange(1, 37))
    } else if s.len() == 45 && matches_ignoring_case(s.subrange(0, 9), "urn:uuid:"@) {
        hyphenated_digits(s.subrange(9, 45))
    } else {
        None
    }
}

/// The 128-bit value of the UUID that `s` writes, or `None` where `s` is none.
pub open spec fn uuid_of(s: Seq<char>) -> Option<u128> {
    match uuid_digits(s) {
        Some(digits) => match hex_number(digits) {
            Some(n) => Some(n as u128),
            None => None,
        },
        None => None,
    }
}

/// What a plate line `"<plate> => <identifier>"` holds: the trimmed plate text
/// and the identifier, or `None` where the identifier segment is missing or
/// does not parse.
pub open spec fn plate_line(s: Seq<char>) -> Option<(Seq<char>, u128)> {
    match id_segment(s) {
        Some(t) => match uuid_of(trimmed(t)) {
            Some(id) => Some((trimmed(plate_segment(s)), id)),
            None => None,
        },
        None => None,
    }
}

/// Relies on uuid::Uuid::parse_str, which accepts exactly the four layouts of
/// `uuid_digits` with hex digits of either case, and on Uuid::as_u128, which
/// reads the 16 bytes big-endian, that is, the digits in writing order.
#[verifier::external_body]
fn parse_uuid(s: &str) -> (r: Option<u128>)
    ensures
        r == uuid_of(s@),
{
    match uuid::Uuid::parse_str(s) {
        Ok(u) => Some(u.as_u128()),
        Err(_) => None,
    }
}

/// Whether `c` is white space in the sense of `is_white_space`.
pub fn white_space(c: char) -> (r: bool)
    ensures
        r == is_white_space(c),
{
    let n = c as u32;
    (0x09 <= n && n <= 0x0d) || n == 0x20 || n == 0x85 || n == 0xa0 || n == 0x1680 || (0x2000 <= n
        && n <= 0x200a) || n == 0x2028 || n == 0x2029 || n == 0x202f || n == 0x205f || n == 0x3000
}

/// `s` without white space at either end.
pub fn trim(s: &str) -> (r: &str)
    ensures
        r@ == trimmed(s@),
{
    let n = s.unicode_len();
    let mut a: usize = 0;
    assert(s@.subrange(0, n as int) =~= s@);
    while a < n && white_space(s.get_char(a))
        invariant
            a <= n,
            n == s@.len(),
            trim_start(s@.subrange(a as int, n as int)) == trim_start(s@),
        decreases n - a,
    {
        assert(s@.subrange(a + 1, n as int) =~= s@.subrange(a as int, n as int).drop_first());
        a = a + 1;
    }
    assert(trim_start(s@) == s@.subrange(a as int, n as int));
    let mut b: usize = n;
    while b > a && white_space(s.get_char(b - 1))
        invariant
            a <= b <= n,
            n == s@.len(),
            trim_end(s@.subrange(a as int, b as int)) == trim_end(s@.subrange(a as int, n as int)),
        decreases b - a,
    {
        assert(s@.subrange(a as int, b - 1) =~= s@.subrange(a as int, b as int).drop_last());
        b = b - 1;
    }
    assert(trim_end(s@.subrange(a as int, b as int)) == s@.subrange(a as int, b as int));
    s.substring_char(a, b)
}

/// Where the first `=>` at or after `from` begins in `s`; `s.len()` if none does.
fn arrow_from(s: &str, n: usize, from: usize) -> (r: usize)
    requires
        n == s@.len(),
        from <= n,
    ensures
        r == find_arrow(s@, from as int),
{
    let mut i: usize = from;
    while i < n && i + 1 < n
        invariant
            from <= i <= n,
            n == s@.len(),
            find_arrow(s@, i as int) == find_arrow(s@, from as int),
        decreases n - i,
    {
        if s.get_char(i) == '=' && s.get_char(i + 1) == '>' {
            return i;
        }
        i = i + 1;
    }
    n
}

/// Reads a plate line `"<plate> => <identifier>"`: splits it at `=>`, trims
/// both segments, and parses the second as an identifier. `None` where there
/// is no second segment or it is no identifier.
pub fn parse_plate_line(payload: &str) -> (r: Option<(String, u128)>)
    ensures
        r is Some <==> plate_line(payload@) is Some,
        r is Some ==> r->Some_0.0@ == plate_line(payload@)->Some_0.0 && r->Some_0.1
            == plate_line(payload@)->Some_0.1,
{
    let n = payload.unicode_len();
    let k = arrow_from(payload, n, 0);
    proof {
        lemma_find_arrow_bounds(payload@, 0);
    }
    if k >= n {
        return None;
    }
    proof {
        lemma_find_arrow_bounds(payload@, k + 2);
    }
    let e = arrow_from(payload, n, k + 2);
    let id_text = trim(payload.substring_char(k + 2, e));
    match parse_uuid(id_text) {
        Some(id) => {
            let plate = trim(payload.substring_char(0, k));
            Some((String::from_str(plate), id))
        },
        None => None,
    }
}

} // verus!
