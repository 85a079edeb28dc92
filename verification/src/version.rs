//! Structured editor versions and their string form.
//!
//! A version string has the shape `major.minor.patch` followed by a release
//! letter and a revision number, as in `2021.3.5f1`.  The marshaller formats
//! a structured version into that string form for the managed runtime, and
//! parses a string coming from the managed runtime back into a structured
//! version, failing with a conversion error on malformed input.

use vstd::prelude::*;

use crate::error_bridge::{BoundaryError, BoundaryErrorKind};

verus! {

/// The release channel letter of a version string.
#[derive(Clone, Copy, PartialEq, Eq, Structural, Debug)]
pub enum ReleaseKind {
    Alpha,
    Beta,
    Final,
    Patch,
}

/// The letter each release kind is written as.
pub open spec fn release_char(k: ReleaseKind) -> char {
    match k {
        ReleaseKind::Alpha => 'a',
        ReleaseKind::Beta => 'b',
        ReleaseKind::Final => 'f',
        ReleaseKind::Patch => 'p',
    }
}

/// Whether `c` is one of the four release letters.
pub open spec fn is_release_char(c: char) -> bool {
    c == 'a' || c == 'b' || c == 'f' || c == 'p'
}

/// The release kind a release letter denotes.
pub open spec fn release_of_char(c: char) -> ReleaseKind {
    if c == 'a' {
        ReleaseKind::Alpha
    } else if c == 'b' {
        ReleaseKind::Beta
    } else if c == 'f' {
        ReleaseKind::Final
    } else {
        ReleaseKind::Patch
    }
}

/// A structured editor version: the three numeric fields, the release
/// channel, and the revision number after the release letter.
#[derive(Clone, Copy, PartialEq, Eq, Structural, Debug)]
pub struct SemanticVersion {
    pub major: u64,
    pub minor: u64,
    pub patch: u64,
    pub release: ReleaseKind,
    pub revision: u64,
}

/// Whether `c` is a decimal digit.
pub open spec fn is_digit_char(c: char) -> bool {
    48 <= c as int && c as int <= 57
}

/// The numeric value of a decimal digit.
pub open spec fn digit_val(c: char) -> nat {
    (c as int - 48) as nat
}

/// The decimal digit with value `d`.
pub open spec fn digit_char_of(d: nat) -> char {
    if d == 0 {
        '0'
    } else if d == 1 {
        '1'
    } else if d == 2 {
        '2'
    } else if d == 3 {
        '3'
    } else if d == 4 {
        '4'
    } else if d == 5 {
        '5'
    } else if d == 6 {
        '6'
    } else if d == 7 {
        '7'
    } else if d == 8 {
        '8'
    } else {
        '9'
    }
}

/// The number a digit sequence denotes, most significant digit first.
pub open spec fn dec_val(s: Seq<char>) -> nat
    decreases s.len(),
{
    if s.len() == 0 {
        0
    } else {
        dec_val(s.drop_last()) * 10 + digit_val(s.last())
    }
}

/// The canonical decimal representation of `n`: no leading zeros, except a
/// single `0` for zero itself.
pub open spec fn dec_rep(n: nat) -> Seq<char>
    decreases n,
{
    if n < 10 {
        seq![digit_char_of(n)]
    } else {
        dec_rep(n / 10).push(digit_char_of(n % 10))
    }
}

/// The first position at or after `i` that does not hold a digit.
pub open spec fn digits_end(s: Seq<char>, i: int) -> int
    decreases s.len() - i
    when 0 <= i <= s.len()
{
    if i < s.len() && is_digit_char(s[i]) {
        digits_end(s, i + 1)
    } else {
        i
    }
}

/// What `digits_end` delimits: a run of digits ending at the first non-digit.
pub proof fn lemma_digits_end(s: Seq<char>, i: int)
    requires
        0 <= i <= s.len(),
    ensures
        i <= digits_end(s, i) <= s.len(),
        forall|j: int| i <= j < digits_end(s, i) ==> is_digit_char(#[trigger] s[j]),
        digits_end(s, i) < s.len() ==> !is_digit_char(s[digits_end(s, i)]),
    decreases s.len() - i,
{
    if i < s.len() && is_digit_char(s[i]) {
        lemma_digits_end(s, i + 1);
    }
}

/// End of the major-number digit run.
pub open spec fn major_end(s: Seq<char>) -> int {
    digits_end(s, 0)
}

/// End of the minor-number digit run, after the first separator.
pub open spec fn minor_end(s: Seq<char>) -> int {
    digits_end(s, major_end(s) + 1)
}

/// End of the patch-number digit run, after the second separator.
pub open spec fn patch_end(s: Seq<char>) -> int {
    digits_end(s, minor_end(s) + 1)
}

/// End of the revision digit run, after the release letter.
pub open spec fn revision_end(s: Seq<char>) -> int {
    digits_end(s, patch_end(s) + 1)
}

/// The version-string grammar: three nonempty digit runs separated by dots,
/// a release letter, and a nonempty revision digit run reaching the end of
/// the string, every run denoting a number a `u64` can hold.
pub open spec fn valid_version_chars(s: Seq<char>) -> bool {
    let e1 = major_end(s);
    let e2 = minor_end(s);
    let e3 = patch_end(s);
    let e4 = revision_end(s);
    &&& 0 < e1
    &&& e1 < s.len()
    &&& s[e1] == '.'
    &&& e1 + 1 < e2
    &&& e2 < s.len()
    &&& s[e2] == '.'
    &&& e2 + 1 < e3
    &&& e3 < s.len()
    &&& is_release_char(s[e3])
    &&& e3 + 1 < e4
    &&& e4 == s.len()
    &&& dec_val(s.subrange(0, e1)) <= u64::MAX
    &&& dec_val(s.subrange(e1 + 1, e2)) <= u64::MAX
    &&& dec_val(s.subrange(e2 + 1, e3)) <= u64::MAX
    &&& dec_val(s.subrange(e3 + 1, e4)) <= u64::MAX
}

/// The structured version a valid version string denotes.
pub open spec fn spec_version_of(s: Seq<char>) -> SemanticVersion
    recommends
        valid_version_chars(s),
{
    SemanticVersion {
        major: dec_val(s.subrange(0, major_end(s))) as u64,
        minor: dec_val(s.subrange(major_end(s) + 1, minor_end(s))) as u64,
        patch: dec_val(s.subrange(minor_end(s) + 1, patch_end(s))) as u64,
        release: release_of_char(s[patch_end(s)]),
        revision: dec_val(s.subrange(patch_end(s) + 1, revision_end(s))) as u64,
    }
}

/// The string form of a structured version.
pub open spec fn spec_version_chars(v: SemanticVersion) -> Seq<char> {
    dec_rep(v.major as nat) + seq!['.'] + dec_rep(v.minor as nat) + seq!['.'] + dec_rep(
        v.patch as nat,
    ) + seq![release_char(v.release)] + dec_rep(v.revision as nat)
}

/// A longer digit run never denotes a smaller number.
proof fn lemma_dec_val_extend(s: Seq<char>, a: int, j: int, k: int)
    requires
        0 <= a <= j <= k <= s.len(),
    ensures
        dec_val(s.subrange(a, k)) >= dec_val(s.subrange(a, j)),
    decreases k - j,
{
    if j < k {
        lemma_dec_val_extend(s, a, j, k - 1);
        assert(s.subrange(a, k).drop_last() =~= s.subrange(a, k - 1));
    }
}

/// The canonical representation is made of digits, at least one.
proof fn lemma_dec_rep_digits(n: nat)
    ensures
        dec_rep(n).len() >= 1,
        forall|i: int| 0 <= i < dec_rep(n).len() ==> is_digit_char(#[trigger] dec_rep(n)[i]),
    decreases n,
{
    if n >= 10 {
        lemma_dec_rep_digits(n / 10);
    }
}

/// The canonical representation denotes the number it was built from.
proof fn lemma_dec_val_dec_rep(n: nat)
    ensures
        dec_val(dec_rep(n)) == n,
    decreases n,
{
    if n < 10 {
        assert(dec_rep(n) == seq![digit_char_of(n)]);
        assert(dec_rep(n).last() == digit_char_of(n));
        assert(dec_rep(n).drop_last() =~= Seq::<char>::empty());
        assert(dec_val(Seq::<char>::empty()) == 0);
        assert(digit_val(digit_char_of(n)) == n);
    } else {
        lemma_dec_val_dec_rep(n / 10);
        assert(dec_rep(n) == dec_rep(n / 10).push(digit_char_of(n % 10)));
        assert(dec_rep(n).last() == digit_char_of(n % 10));
        assert(dec_rep(n).drop_last() =~= dec_rep(n / 10));
        assert(digit_val(digit_char_of(n % 10)) == n % 10);
        assert(dec_val(dec_rep(n)) == dec_val(dec_rep(n / 10)) * 10 + digit_val(
            digit_char_of(n % 10),
        ));
    }
}

/// A run of digits followed by the string's end or a non-digit is exactly
/// what `digits_end` delimits.
proof fn lemma_digits_end_of_run(s: Seq<char>, i: int, j: int)
    requires
        0 <= i <= j <= s.len(),
        forall|k: int| i <= k < j ==> is_digit_char(#[trigger] s[k]),
        j == s.len() || !is_digit_char(s[j]),
    ensures
        digits_end(s, i) == j,
    decreases j - i,
{
    if i < j {
        lemma_digits_end_of_run(s, i + 1, j);
    }
}

/// Formatting is the inverse of parsing: the string form of any structured
/// version is a valid version string, and it denotes exactly the version it
/// was formatted from.
pub proof fn lemma_version_round_trip(v: SemanticVersion)
    ensures
        valid_version_chars(spec_version_chars(v)),
        spec_version_of(spec_version_chars(v)) == v,
{
    let a = dec_rep(v.major as nat);
    let b = dec_rep(v.minor as nat);
    let c = dec_rep(v.patch as nat);
    let d = dec_rep(v.revision as nat);
    let s = spec_version_chars(v);
    lemma_dec_rep_digits(v.major as nat);
    lemma_dec_rep_digits(v.minor as nat);
    lemma_dec_rep_digits(v.patch as nat);
    lemma_dec_rep_digits(v.revision as nat);
    lemma_dec_val_dec_rep(v.major as nat);
    lemma_dec_val_dec_rep(v.minor as nat);
    lemma_dec_val_dec_rep(v.patch as nat);
    lemma_dec_val_dec_rep(v.revision as nat);
    let e1 = a.len() as int;
    let e2 = e1 + 1 + b.len() as int;
    let e3 = e2 + 1 + c.len() as int;
    let e4 = e3 + 1 + d.len() as int;
    assert(s.len() == e4);
    assert(s[e1] == '.');
    assert(s[e2] == '.');
    assert(s[e3] == release_char(v.release));
    assert(!is_digit_char('.'));
    assert(!is_digit_char(release_char(v.release)));
    assert(forall|k: int| 0 <= k < e1 ==> s[k] == a[k - 0]);
    assert(forall|k: int| e1 + 1 <= k < e2 ==> s[k] == b[k - (e1 + 1)]);
    assert(forall|k: int| e2 + 1 <= k < e3 ==> s[k] == c[k - (e2 + 1)]);
    assert(forall|k: int| e3 + 1 <= k < e4 ==> s[k] == d[k - (e3 + 1)]);
    lemma_digits_end_of_run(s, 0, e1);
    lemma_digits_end_of_run(s, e1 + 1, e2);
    lemma_digits_end_of_run(s, e2 + 1, e3);
    lemma_digits_end_of_run(s, e3 + 1, e4);
    assert(s.subrange(0, e1) =~= a);
    assert(s.subrange(e1 + 1, e2) =~= b);
    assert(s.subrange(e2 + 1, e3) =~= c);
    assert(s.subrange(e3 + 1, e4) =~= d);
    assert(release_of_char(release_char(v.release)) == v.release);
}

/// Scans the digit run beginning at `i` and returns its end.
fn scan_digits(s: &str, i: usize) -> (end: usize)
    requires
        i as int <= s@.len(),
    ensures
        end as int == digits_end(s@, i as int),
        i <= end,
        end as int <= s@.len(),
    decreases s@.len() - i as int,
{
    let n = s.unicode_len();
    if i < n {
        let c = s.get_char(i);
        let v = c as u32;
        if v >= 48 && v <= 57 {
            return scan_digits(s, i + 1);
        }
    }
    i
}

/// Reads the digit run beginning at `start` as a number.  `None` when the
/// run is empty or its value does not fit a `u64`.
fn scan_number(s: &str, start: usize) -> (r: Option<(u64, usize)>)
    requires
        start as int <= s@.len(),
    ensures
        match r {
            Some(p) => {
                &&& p.1 as int == digits_end(s@, start as int)
                &&& start < p.1
                &&& p.1 as int <= s@.len()
                &&& p.0 as nat == dec_val(s@.subrange(start as int, p.1 as int))
            },
            None => {
                ||| digits_end(s@, start as int) == start
                ||| dec_val(s@.subrange(start as int, digits_end(s@, start as int))) > u64::MAX
            },
        },
{
    let end = scan_digits(s, start);
    proof {
        lemma_digits_end(s@, start as int);
    }
    if end == start {
        return None;
    }
    let mut val: u64 = 0;
    let mut i = start;
    while i < end
        invariant
            start <= i <= end,
            end as int == digits_end(s@, start as int),
            end as int <= s@.len(),
            forall|j: int| start <= j < end ==> is_digit_char(#[trigger] s@[j]),
            val as nat == dec_val(s@.subrange(start as int, i as int)),
        decreases end - i,
    {
        let c = s.get_char(i);
        assert(is_digit_char(s@[i as int]));
        let d = (c as u32 - 48) as u64;
        proof {
            assert(s@.subrange(start as int, i + 1 as int) =~= s@.subrange(
                start as int,
                i as int,
            ).push(s@[i as int]));
            assert(s@.subrange(start as int, i + 1 as int).drop_last() =~= s@.subrange(
                start as int,
                i as int,
            ));
            assert(d as nat == digit_val(s@[i as int]));
        }
        if val > (u64::MAX - d) / 10 {
            proof {
                assert(val * 10 + d > u64::MAX) by (nonlinear_arith)
                    requires
                        val > (u64::MAX - d) / 10,
                        d <= 9,
                ;
                lemma_dec_val_extend(s@, start as int, i + 1 as int, end as int);
            }
            return None;
        }
        proof {
            assert(val * 10 + d <= u64::MAX) by (nonlinear_arith)
                requires
                    val <= (u64::MAX - d) / 10,
                    d <= 9,
            ;
        }
        val = val * 10 + d;
        i += 1;
    }
    proof {
        assert(s@.subrange(start as int, end as int) == s@.subrange(start as int, i as int));
    }
    Some((val, end))
}

/// The conversion failure every malformed version string is rejected with.
fn version_parse_error() -> (e: BoundaryError)
    ensures
        e.kind == BoundaryErrorKind::Conversion,
{
    BoundaryError::new(BoundaryErrorKind::Conversion, "invalid version string".to_owned())
}

/// Parses a version string coming from the managed runtime into a structured
/// version.  Succeeds exactly on strings matching the version grammar, and
/// fails with a conversion error on every other input.
pub fn parse_version(s: &str) -> (r: Result<SemanticVersion, BoundaryError>)
    ensures
        r is Ok <==> valid_version_chars(s@),
        r matches Ok(v) ==> v == spec_version_of(s@),
        r matches Err(e) ==> e.kind == BoundaryErrorKind::Conversion,
{
    let n = s.unicode_len();
    let (major, e1) = match scan_number(s, 0) {
        Some(p) => p,
        None => {
            return Err(version_parse_error());
        },
    };
    if e1 == n {
        return Err(version_parse_error());
    }
    if s.get_char(e1) != '.' {
        return Err(version_parse_error());
    }
    let (minor, e2) = match scan_number(s, e1 + 1) {
        Some(p) => p,
        None => {
            return Err(version_parse_error());
        },
    };
    if e2 == n {
        return Err(version_parse_error());
    }
    if s.get_char(e2) != '.' {
        return Err(version_parse_error());
    }
    let (patch, e3) = match scan_number(s, e2 + 1) {
        Some(p) => p,
        None => {
            return Err(version_parse_error());
        },
    };
    if e3 == n {
        return Err(version_parse_error());
    }
    let release = match s.get_char(e3) {
        'a' => ReleaseKind::Alpha,
        'b' => ReleaseKind::Beta,
        'f' => ReleaseKind::Final,
        'p' => ReleaseKind::Patch,
        _ => {
            return Err(version_parse_error());
        },
    };
    let (revision, e4) = match scan_number(s, e3 + 1) {
        Some(p) => p,
        None => {
            return Err(version_parse_error());
        },
    };
    if e4 != n {
        return Err(version_parse_error());
    }
    Ok(SemanticVersion { major, minor, patch, release, revision })
}

/// The single-character string of a decimal digit.
fn digit_str(d: u64) -> (r: &'static str)
    requires
        d < 10,
    ensures
        r@ == seq![digit_char_of(d as nat)],
{
    let r: &'static str = if d == 0 {
        "0"
    } else if d == 1 {
        "1"
    } else if d == 2 {
        "2"
    } else if d == 3 {
        "3"
    } else if d == 4 {
        "4"
    } else if d == 5 {
        "5"
    } else if d == 6 {
        "6"
    } else if d == 7 {
        "7"
    } else if d == 8 {
        "8"
    } else {
        "9"
    };
    proof {
        reveal_strlit("0");
        reveal_strlit("1");
        reveal_strlit("2");
        reveal_strlit("3");
        reveal_strlit("4");
        reveal_strlit("5");
        reveal_strlit("6");
        reveal_strlit("7");
        reveal_strlit("8");
        reveal_strlit("9");
        assert(r@ =~= seq![digit_char_of(d as nat)]);
    }
    r
}

/// The decimal string of `n`, most significant digit first.
fn u64_dec(n: u64) -> (r: String)
    ensures
        r@ == dec_rep(n as nat),
    decreases n,
{
    if n < 10 {
        digit_str(n).to_owned()
    } else {
        let mut s = u64_dec(n / 10);
        s.append(digit_str(n % 10));
        proof {
            assert(dec_rep((n / 10) as nat) + seq![digit_char_of((n % 10) as nat)] =~= dec_rep(
                (n / 10) as nat,
            ).push(digit_char_of((n % 10) as nat)));
        }
        s
    }
}

/// The single-character string of a release letter.
fn release_str(k: ReleaseKind) -> (r: &'static str)
    ensures
        r@ == seq![release_char(k)],
{
    let r: &'static str = match k {
        ReleaseKind::Alpha => "a",
        ReleaseKind::Beta => "b",
        ReleaseKind::Final => "f",
        ReleaseKind::Patch => "p",
    };
    proof {
        reveal_strlit("a");
        reveal_strlit("b");
        reveal_strlit("f");
        reveal_strlit("p");
        assert(r@ =~= seq![release_char(k)]);
    }
    r
}

/// Formats a structured version into its string form for the managed
/// runtime.
pub fn format_version(v: &SemanticVersion) -> (r: String)
    ensures
        r@ == spec_version_chars(*v),
{
    let mut s = u64_dec(v.major);
    s.append(".");
    s.append(u64_dec(v.minor).as_str());
    s.append(".");
    s.append(u64_dec(v.patch).as_str());
    s.append(release_str(v.release));
    s.append(u64_dec(v.revision).as_str());
    proof {
        reveal_strlit(".");
        assert("."@ =~= seq!['.']);
        assert(s@ =~= spec_version_chars(*v));
    }
    s
}

} // verus!
