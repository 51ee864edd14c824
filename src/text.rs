use vstd::prelude::*;
use vstd::string::StrSliceExecFns;

verus! {

/// What `str::to_lowercase` returns for a string (full Unicode case mapping).
pub uninterp spec fn lower_of(s: Seq<char>) -> Seq<char>;

/// What `char::to_uppercase` yields for a character (one or more characters).
pub uninterp spec fn upper_of(c: char) -> Seq<char>;

/// The ASCII lowercase of a character: `A`..=`Z` map to `a`..=`z`, every
/// other character is kept.
pub open spec fn ascii_lower_char(c: char) -> char {
    if 'A' <= c && c <= 'Z' {
        ((c as u32) + 32) as char
    } else {
        c
    }
}

/// The ASCII lowercase of a string, character by character.
pub open spec fn ascii_lower(s: Seq<char>) -> Seq<char> {
    s.map_values(|c: char| ascii_lower_char(c))
}

/// Whether `sub` occurs in `s` as a contiguous run of characters.
pub open spec fn contains_sub(s: Seq<char>, sub: Seq<char>) -> bool {
    exists|i: int| 0 <= i && i + sub.len() <= s.len() && #[trigger] s.subrange(i, i + sub.len()) == sub
}

/// The decimal digit of `d`, for `d < 10`.
pub open spec fn digit_char(d: nat) -> char {
    (('0' as u32) + d) as char
}

/// The decimal representation of `n`, without sign or leading zeros.
pub open spec fn decimal(n: nat) -> Seq<char>
    decreases n,
{
    if n < 10 {
        seq![digit_char(n)]
    } else {
        decimal(n / 10) + seq![digit_char(n % 10)]
    }
}

/// `s` with its first character replaced by its uppercase form.
pub open spec fn capitalized(s: Seq<char>) -> Seq<char> {
    if s.len() == 0 {
        Seq::empty()
    } else {
        upper_of(s[0]) + s.subrange(1, s.len() as int)
    }
}

/// Relies on `str::to_lowercase`: its result depends on the characters alone,
/// and the empty string stays empty.
#[verifier::external_body]
pub(crate) fn lowercase(s: &str) -> (r: String)
    ensures
        r@ == lower_of(s@),
        s@.len() == 0 ==> r@.len() == 0,
{
    s.to_lowercase()
}

/// Relies on `char::to_uppercase`, collected into a string: the uppercase
/// mapping of a character is one or more characters.
#[verifier::external_body]
fn uppercase_char(c: char) -> (r: String)
    ensures
        r@ == upper_of(c),
        r@.len() >= 1,
{
    c.to_uppercase().collect::<String>()
}

/// The ASCII lowercase of `s`.
pub(crate) fn ascii_lowercase(s: &str) -> (r: String)
    ensures
        r@ == ascii_lower(s@),
{
    let letters = "abcdefghijklmnopqrstuvwxyz";
    proof {
        reveal_strlit("abcdefghijklmnopqrstuvwxyz");
    }
    let n = s.unicode_len();
    let mut out = String::new();
    let mut i: usize = 0;
    while i < n
        invariant
            n == s@.len(),
            0 <= i <= n,
            letters@ == "abcdefghijklmnopqrstuvwxyz"@,
            letters@.len() == 26,
            out@ == ascii_lower(s@.take(i as int)),
        decreases n - i,
    {
        let c = s.get_char(i);
        if 'A' <= c && c <= 'Z' {
            let k = (c as u32 - 'A' as u32) as usize;
            let piece = letters.substring_char(k, k + 1);
            assert(letters@[k as int] == ascii_lower_char(c)) by {
                reveal_strlit("abcdefghijklmnopqrstuvwxyz");
                assert(c as u32 == 65 + k);
                assert(0 <= k < 26);
            }
            assert(piece@ =~= seq![ascii_lower_char(c)]);
            out.append(piece);
        } else {
            let piece = s.substring_char(i, i + 1);
            assert(piece@ =~= seq![ascii_lower_char(c)]);
            out.append(piece);
        }
        assert(s@.take(i as int + 1) =~= s@.take(i as int).push(c));
        assert(ascii_lower(s@.take(i as int + 1)) =~= ascii_lower(s@.take(i as int)).push(ascii_lower_char(c)));
        i = i + 1;
    }
    assert(s@.take(n as int) =~= s@);
    out
}

/// Whether `sub` occurs at position `i` of `s`.
fn occurs_at(s: &str, sub: &str, i: usize, n: usize) -> (r: bool)
    requires
        n == s@.len(),
        i + sub@.len() <= n,
    ensures
        r == (s@.subrange(i as int, i + sub@.len()) == sub@),
{
    let m = sub.unicode_len();
    let mut j: usize = 0;
    while j < m
        invariant
            m == sub@.len(),
            n == s@.len(),
            i + m <= n,
            0 <= j <= m,
            forall|k: int| 0 <= k < j ==> s@[i + k] == sub@[k],
        decreases m - j,
    {
        if s.get_char(i + j) != sub.get_char(j) {
            assert(s@.subrange(i as int, i + m)[j as int] != sub@[j as int]);
            return false;
        }
        j = j + 1;
    }
    assert(s@.subrange(i as int, i + m) =~= sub@);
    true
}

/// Whether `sub` occurs in `s`.
pub(crate) fn contains_str(s: &str, sub: &str) -> (r: bool)
    ensures
        r == contains_sub(s@, sub@),
{
    let n = s.unicode_len();
    let m = sub.unicode_len();
    if m > n {
        return false;
    }
    let last = n - m;
    let mut i: usize = 0;
    loop
        invariant
            n == s@.len(),
            m == sub@.len(),
            last == n - m,
            0 <= i <= last,
            forall|k: int| 0 <= k < i ==> #[trigger] s@.subrange(k, k + m) != sub@,
        decreases last - i,
    {
        if occurs_at(s, sub, i, n) {
            return true;
        }
        if i == last {
            assert(!contains_sub(s@, sub@)) by {
                if contains_sub(s@, sub@) {
                    let k = choose|k: int| 0 <= k && k + m <= n && #[trigger] s@.subrange(k, k + m) == sub@;
                    assert(k <= last);
                }
            }
            return false;
        }
        i = i + 1;
    }
}

/// Appends the decimal digit `d`.
fn push_digit(out: &mut String, d: u16)
    requires
        d < 10,
    ensures
        final(out)@ == old(out)@ + seq![digit_char(d as nat)],
{
    let digits = "0123456789";
    proof {
        reveal_strlit("0123456789");
    }
    let piece = digits.substring_char(d as usize, d as usize + 1);
    assert(digits@[d as int] == digit_char(d as nat));
    assert(piece@ =~= seq![digit_char(d as nat)]);
    out.append(piece);
}

/// Appends the decimal representation of `n`.
fn push_decimal(out: &mut String, n: u16)
    ensures
        final(out)@ == old(out)@ + decimal(n as nat),
    decreases n,
{
    if n >= 10 {
        push_decimal(out, n / 10);
    }
    push_digit(out, n % 10);
    assert(final(out)@ =~= old(out)@ + decimal(n as nat));
}

/// The decimal representation of `n`.
pub(crate) fn u16_to_string(n: u16) -> (r: String)
    ensures
        r@ == decimal(n as nat),
{
    let mut out = String::new();
    push_decimal(&mut out, n);
    out
}

/// The string with its first character in upper case.
pub fn capitalize(s: &str) -> (r: String)
    ensures
        r@ == capitalized(s@),
        s@.len() > 0 ==> r@.len() > 0,
{
    let n = s.unicode_len();
    if n == 0 {
        return String::new();
    }
    let mut out = uppercase_char(s.get_char(0));
    out.append(s.substring_char(1, n));
    out
}

} // verus!
