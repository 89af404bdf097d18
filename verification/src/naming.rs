//! Collision-safe backup names.
//!
//! When an existing entry at the link path must be displaced, it is renamed
//! to a sibling whose name is the link's basename with `-<stamp>` appended,
//! and `-1`, `-2`, ... appended after that while the candidate name is
//! taken.  The basename is the path's final component with trailing `/`
//! separators and trailing `.` components ignored, as the platform's own
//! basename extraction ignores them; the candidate is then the so-stripped
//! link path with the suffix appended.

use vstd::prelude::*;

use crate::errors::ReconcileError;

verus! {

/// The digit character for `d`, for `d < 10`.
pub open spec fn digit_char(d: nat) -> char {
    if d == 0 {
        '0'
    } else if d == 1 {
        '1'
    } else if d == 2 {
        '2'
    } else if d == 3 {
        '3'
    } else if d == 4 {
        '4'
    } else if d == 5 {
        '5'
    } else if d == 6 {
        '6'
    } else if d == 7 {
        '7'
    } else if d == 8 {
        '8'
    } else {
        '9'
    }
}

/// The decimal representation of `n`, most significant digit first,
/// without leading zeros (`0` itself is rendered as `"0"`).
pub open spec fn decimal_chars(n: nat) -> Seq<char>
    decreases n,
{
    if n < 10 {
        seq![digit_char(n)]
    } else {
        decimal_chars(n / 10).push(digit_char(n % 10))
    }
}

/// A path with its trailing decorations removed: trailing `/` separators
/// and trailing lone-`.` components contribute nothing to the basename
/// (`"/home/"` and `"/home/."` both name `home`), so they are stripped
/// before the basename is read off.
pub open spec fn strip_trailing(s: Seq<char>) -> Seq<char>
    decreases s.len(),
{
    if s.len() == 0 {
        s
    } else if s.last() == '/' {
        strip_trailing(s.drop_last())
    } else if s.last() == '.' && (s.len() == 1 || s[s.len() - 2] == '/') {
        strip_trailing(s.drop_last())
    } else {
        s
    }
}

/// The characters after the last `/` of `s`, or the whole of `s` when it
/// holds none.
pub open spec fn trailing_component(s: Seq<char>) -> Seq<char>
    decreases s.len(),
{
    if s.len() == 0 {
        Seq::empty()
    } else if s[s.len() - 1] == '/' {
        Seq::empty()
    } else {
        trailing_component(s.drop_last()).push(s[s.len() - 1])
    }
}

/// The basename of a path: its final component, trailing `/` separators
/// and trailing `.` components ignored.
pub open spec fn basename_chars(s: Seq<char>) -> Seq<char> {
    trailing_component(strip_trailing(s))
}

/// Whether a backup name can be derived from a path: its basename must
/// be nonempty and must not be the parent component `..`.  (A trailing
/// lone `.` never survives the stripping, so `.` cannot be a basename.)
pub open spec fn has_valid_basename(s: Seq<char>) -> bool {
    let b = basename_chars(s);
    &&& b.len() > 0
    &&& b != seq!['.', '.']
}

/// The backup candidate for `link` at a given retry count: the stripped
/// link path with `-<stamp>` appended, and `-<attempt>` after it when
/// `attempt > 0`.
pub open spec fn candidate_chars(link: Seq<char>, stamp: Seq<char>, attempt: nat) -> Seq<char> {
    let base = strip_trailing(link) + seq!['-'] + stamp;
    if attempt == 0 {
        base
    } else {
        base + seq!['-'] + decimal_chars(attempt)
    }
}

/// The decimal rendering of a number is never empty.
proof fn lemma_decimal_len(n: nat)
    ensures
        decimal_chars(n).len() >= 1,
    decreases n,
{
    if n >= 10 {
        lemma_decimal_len(n / 10);
    }
}

/// Distinct numbers render to distinct decimal strings.
proof fn lemma_decimal_injective(m: nat, n: nat)
    requires
        decimal_chars(m) == decimal_chars(n),
    ensures
        m == n,
    decreases m,
{
    if m < 10 && n < 10 {
        assert(decimal_chars(m)[0] == digit_char(m));
        assert(decimal_chars(n)[0] == digit_char(n));
    } else if m < 10 && 10 <= n {
        lemma_decimal_len(n / 10);
        assert(decimal_chars(n).len() >= 2);
    } else if 10 <= m && n < 10 {
        lemma_decimal_len(m / 10);
        assert(decimal_chars(m).len() >= 2);
    } else {
        assert(decimal_chars(m).last() == digit_char(m % 10));
        assert(decimal_chars(n).last() == digit_char(n % 10));
        assert(m % 10 == n % 10);
        assert(decimal_chars(m).drop_last() =~= decimal_chars(m / 10));
        assert(decimal_chars(n).drop_last() =~= decimal_chars(n / 10));
        lemma_decimal_injective(m / 10, n / 10);
        vstd::arithmetic::div_mod::lemma_fundamental_div_mod(m as int, 10);
        vstd::arithmetic::div_mod::lemma_fundamental_div_mod(n as int, 10);
    }
}

/// The decimal rendering holds digits only, never a `/`.
proof fn lemma_decimal_no_slash(n: nat)
    ensures
        forall|i: int| 0 <= i < decimal_chars(n).len() ==> decimal_chars(n)[i] != '/',
    decreases n,
{
    if n < 10 {
        assert(decimal_chars(n) =~= seq![digit_char(n)]);
    } else {
        lemma_decimal_no_slash(n / 10);
        assert forall|i: int| 0 <= i < decimal_chars(n).len() implies decimal_chars(n)[i]
            != '/' by {
            if i < decimal_chars(n).len() - 1 {
                assert(decimal_chars(n)[i] == decimal_chars(n / 10)[i]);
            } else {
                assert(decimal_chars(n)[i] == digit_char(n % 10));
            }
        }
    }
}

/// The stripped path is a prefix of the path, and the first character it
/// drops, if any, is a `/` or a `.`.
proof fn lemma_strip_prefix(s: Seq<char>)
    ensures
        strip_trailing(s).len() <= s.len(),
        strip_trailing(s) =~= s.subrange(0, strip_trailing(s).len() as int),
        strip_trailing(s).len() < s.len() ==> (s[strip_trailing(s).len() as int] == '/'
            || s[strip_trailing(s).len() as int] == '.'),
    decreases s.len(),
{
    if s.len() == 0 {
    } else if s.last() == '/' || (s.last() == '.' && (s.len() == 1 || s[s.len() - 2] == '/')) {
        lemma_strip_prefix(s.drop_last());
        let sp = strip_trailing(s);
        assert(sp == strip_trailing(s.drop_last()));
        assert(sp =~= s.subrange(0, sp.len() as int));
        if sp.len() < s.len() - 1 {
            assert(s.drop_last()[sp.len() as int] == s[sp.len() as int]);
        } else {
            assert(s[sp.len() as int] == s.last());
        }
    }
}

/// Appending slash-free characters to a path extends its final
/// component and touches nothing before it.
proof fn lemma_trailing_append(s: Seq<char>, x: Seq<char>)
    requires
        forall|i: int| 0 <= i < x.len() ==> x[i] != '/',
    ensures
        trailing_component(s + x) =~= trailing_component(s) + x,
    decreases x.len(),
{
    if x.len() == 0 {
        assert(s + x =~= s);
    } else {
        lemma_trailing_append(s, x.drop_last());
        let y = s + x.drop_last();
        let c = x.last();
        assert(x[x.len() - 1] != '/');
        assert(s + x =~= y.push(c));
        assert(y.push(c)[y.push(c).len() - 1] == c);
        assert(y.push(c).drop_last() =~= y);
        assert(trailing_component(y.push(c)) == trailing_component(y.push(c).drop_last()).push(c));
        assert(trailing_component(y.push(c).drop_last()) == trailing_component(y));
    }
}

/// **The probe sequence never repeats a name.**  Distinct retry counts
/// yield distinct candidate names for the same link and stamp, so
/// probing `-1`, `-2`, ... walks through fresh names until a free one is
/// found.
pub proof fn lemma_candidates_distinct(link: Seq<char>, stamp: Seq<char>, a1: nat, a2: nat)
    requires
        a1 != a2,
    ensures
        candidate_chars(link, stamp, a1) != candidate_chars(link, stamp, a2),
{
    let base = strip_trailing(link) + seq!['-'] + stamp;
    if a1 == 0 {
        lemma_decimal_len(a2);
        assert(candidate_chars(link, stamp, a2).len() > base.len());
    } else if a2 == 0 {
        lemma_decimal_len(a1);
        assert(candidate_chars(link, stamp, a1).len() > base.len());
    } else {
        if candidate_chars(link, stamp, a1) == candidate_chars(link, stamp, a2) {
            let c1 = base + seq!['-'] + decimal_chars(a1);
            let c2 = base + seq!['-'] + decimal_chars(a2);
            assert(c1.len() == c2.len());
            assert(decimal_chars(a1).len() == decimal_chars(a2).len());
            let k = base.len() + 1;
            assert(decimal_chars(a1) =~= c1.subrange(k as int, c1.len() as int));
            assert(decimal_chars(a2) =~= c2.subrange(k as int, c2.len() as int));
            lemma_decimal_injective(a1, a2);
            assert(false);
        }
    }
}

/// **The backup never shadows the link.**  Where nothing is stripped the
/// candidate strictly extends the link path; where trailing decorations
/// were stripped, the candidate differs from the link at the first
/// stripped position (`-` against `/` or `.`).  Either way the backup
/// rename moves the entry to a different path.
pub proof fn lemma_candidate_differs_from_link(link: Seq<char>, stamp: Seq<char>, attempt: nat)
    ensures
        candidate_chars(link, stamp, attempt) != link,
{
    lemma_decimal_len(attempt);
    lemma_strip_prefix(link);
    let sp = strip_trailing(link);
    let c = candidate_chars(link, stamp, attempt);
    assert((sp + seq!['-'] + stamp)[sp.len() as int] == '-');
    assert(c[sp.len() as int] == '-');
    if sp.len() == link.len() {
        assert(c.len() > link.len());
    } else {
        assert(link[sp.len() as int] == '/' || link[sp.len() as int] == '.');
        if c == link {
            assert(c[sp.len() as int] == link[sp.len() as int]);
            assert(false);
        }
    }
}

/// **The backup stays beside the link.**  When the stamp holds no `/` —
/// as the library's timestamps are guaranteed not to — the candidate's
/// directory part is exactly that of the stripped link path, and only
/// its final component is extended: the backup is a sibling.
pub proof fn lemma_candidate_is_sibling(link: Seq<char>, stamp: Seq<char>, attempt: nat)
    requires
        forall|i: int| 0 <= i < stamp.len() ==> stamp[i] != '/',
    ensures
        attempt == 0 ==> trailing_component(candidate_chars(link, stamp, 0))
            =~= trailing_component(strip_trailing(link)) + seq!['-'] + stamp,
        attempt != 0 ==> trailing_component(candidate_chars(link, stamp, attempt))
            =~= trailing_component(strip_trailing(link)) + seq!['-'] + stamp + seq!['-']
            + decimal_chars(attempt),
{
    let sp = strip_trailing(link);
    lemma_decimal_no_slash(attempt);
    if attempt == 0 {
        let x = seq!['-'] + stamp;
        lemma_trailing_append(sp, x);
        assert(candidate_chars(link, stamp, 0) =~= sp + x);
        assert(trailing_component(sp) + x =~= trailing_component(sp) + seq!['-'] + stamp);
    } else {
        let x = seq!['-'] + stamp + seq!['-'] + decimal_chars(attempt);
        lemma_trailing_append(sp, x);
        assert(candidate_chars(link, stamp, attempt) =~= sp + x);
        assert(trailing_component(sp) + x =~= trailing_component(sp) + seq!['-'] + stamp
            + seq!['-'] + decimal_chars(attempt));
    }
}

/// The single-character string for the digit `d`.
fn digit_str(d: u64) -> (r: &'static str)
    requires
        d < 10,
    ensures
        r@ =~= seq![digit_char(d as nat)],
{
    proof {
        reveal_strlit("0");
        reveal_strlit("1");
        reveal_strlit("2");
        reveal_strlit("3");
        reveal_strlit("4");
        reveal_strlit("5");
        reveal_strlit("6");
        reveal_strlit("7");
        reveal_strlit("8");
        reveal_strlit("9");
    }
    if d == 0 {
        "0"
    } else if d == 1 {
        "1"
    } else if d == 2 {
        "2"
    } else if d == 3 {
        "3"
    } else if d == 4 {
        "4"
    } else if d == 5 {
        "5"
    } else if d == 6 {
        "6"
    } else if d == 7 {
        "7"
    } else if d == 8 {
        "8"
    } else {
        "9"
    }
}

/// Render `n` in decimal.
pub fn decimal_string(n: u64) -> (r: String)
    ensures
        r@ == decimal_chars(n as nat),
    decreases n,
{
    if n < 10 {
        let s = String::from_str(digit_str(n));
        proof {
            assert(s@ =~= decimal_chars(n as nat));
        }
        s
    } else {
        assert(n / 10 < n);
        let mut s = decimal_string(n / 10);
        s.append(digit_str(n % 10));
        proof {
            assert(s@ =~= decimal_chars(n as nat));
        }
        s
    }
}

/// Whether the character just before position `m` is a trailing
/// decoration: a `/`, or a `.` that forms a lone `.` component.
fn strippable_at(path: &str, m: usize) -> (r: bool)
    requires
        1 <= m <= path@.len(),
    ensures
        r == (path@[m - 1] == '/' || (path@[m - 1] == '.' && (m == 1 || path@[m - 2] == '/'))),
{
    let c = path.get_char(m - 1);
    if c == '/' {
        true
    } else if c == '.' {
        m == 1 || path.get_char(m - 2) == '/'
    } else {
        false
    }
}

/// The length of `path` once its trailing decorations are stripped.
fn stripped_len(path: &str) -> (m: usize)
    ensures
        m <= path@.len(),
        strip_trailing(path@) =~= path@.subrange(0, m as int),
{
    let n = path.unicode_len();
    let mut m = n;
    proof {
        assert(path@.subrange(0, n as int) =~= path@);
    }
    while m > 0 && strippable_at(path, m)
        invariant
            m <= n,
            n == path@.len(),
            strip_trailing(path@) == strip_trailing(path@.subrange(0, m as int)),
        decreases m,
    {
        proof {
            let p = path@.subrange(0, m as int);
            assert(p.last() == path@[m - 1]);
            assert(p.drop_last() =~= path@.subrange(0, m - 1));
            assert(strip_trailing(p) == strip_trailing(path@.subrange(0, m - 1)));
        }
        m = m - 1;
    }
    proof {
        let p = path@.subrange(0, m as int);
        if m > 0 {
            assert(p.last() == path@[m - 1]);
            assert(strip_trailing(p) == p);
        }
        assert(strip_trailing(path@) =~= path@.subrange(0, m as int));
    }
    m
}

/// A copy of `path` with its trailing decorations stripped.
pub fn stripped_of(path: &String) -> (r: String)
    ensures
        r@ == strip_trailing(path@),
{
    let m = stripped_len(path.as_str());
    let s = path.as_str().substring_char(0, m);
    String::from_str(s)
}

/// Index at which the final component of `path`'s first `m` characters
/// starts: just past the last `/` before `m`, or `0` when there is none.
fn component_start(path: &str, m: usize) -> (i: usize)
    requires
        m <= path@.len(),
    ensures
        i <= m,
        forall|j: int| i <= j < m ==> path@[j] != '/',
        i > 0 ==> path@[i - 1] == '/',
{
    let mut i = m;
    while i > 0 && path.get_char(i - 1) != '/'
        invariant
            i <= m,
            m <= path@.len(),
            forall|j: int| i <= j < m ==> path@[j] != '/',
        decreases i,
    {
        i = i - 1;
    }
    i
}

/// The final component of `s` is exactly its suffix from `i` on, when no
/// `/` stands at or after `i` and `i` is `0` or sits just past a `/`.
proof fn lemma_component_is_suffix(s: Seq<char>, i: int)
    requires
        0 <= i <= s.len(),
        forall|j: int| i <= j < s.len() ==> s[j] != '/',
        i > 0 ==> s[i - 1] == '/',
    ensures
        trailing_component(s) =~= s.subrange(i, s.len() as int),
    decreases s.len(),
{
    if s.len() == 0 {
    } else if i == s.len() {
        if i > 0 {
            assert(s[s.len() - 1] == '/');
        }
    } else {
        assert(s[s.len() - 1] != '/');
        lemma_component_is_suffix(s.drop_last(), i);
        assert(s.subrange(i, s.len() as int) =~= s.drop_last().subrange(i, s.len() - 1).push(
            s[s.len() - 1],
        ));
    }
}

/// Whether a backup name can be derived from `path` (its basename is
/// nonempty and not `..`).
pub fn valid_backup_source(path: &str) -> (r: bool)
    ensures
        r == has_valid_basename(path@),
{
    let m = stripped_len(path);
    let i = component_start(path, m);
    proof {
        assert(strip_trailing(path@) == path@.subrange(0, m as int));
        let p = path@.subrange(0, m as int);
        lemma_component_is_suffix(p, i as int);
        assert(basename_chars(path@) =~= path@.subrange(i as int, m as int));
    }
    let blen = m - i;
    if blen == 0 {
        false
    } else if blen == 2 && path.get_char(i) == '.' && path.get_char(i + 1) == '.' {
        proof {
            assert(basename_chars(path@) =~= seq!['.', '.']);
        }
        false
    } else {
        proof {
            let b = basename_chars(path@);
            assert(b.len() == m - i);
            if b == seq!['.', '.'] {
                assert(path@[i as int] == '.');
                assert(path@[i + 1] == '.');
                assert(false);
            }
        }
        true
    }
}

/// Compute the backup candidate for `link` at retry count `attempt`:
/// the stripped link path with `-<stamp>` appended, and `-<attempt>`
/// after it when `attempt > 0`.  Fails with `InvalidBackupTarget`
/// exactly when `link` has no usable basename.
pub fn backup_candidate(link: &String, stamp: &String, attempt: u64) -> (r: Result<
    String,
    ReconcileError,
>)
    ensures
        r is Ok <==> has_valid_basename(link@),
        r matches Ok(c) ==> c@ == candidate_chars(link@, stamp@, attempt as nat),
        r matches Err(e) ==> e@ == (crate::errors::ReconcileErrorModel::InvalidBackupTarget {
            path: link@,
        }),
{
    if !valid_backup_source(link.as_str()) {
        return Err(ReconcileError::InvalidBackupTarget { path: link.clone() });
    }
    proof {
        reveal_strlit("-");
    }
    let mut c = stripped_of(link);
    c.append("-");
    c.append(stamp.as_str());
    if attempt > 0 {
        c.append("-");
        let num = decimal_string(attempt);
        c.append(num.as_str());
    }
    proof {
        assert(c@ =~= candidate_chars(link@, stamp@, attempt as nat));
    }
    Ok(c)
}

/// Relies on `chrono::Local::now` and chrono's strftime-style
/// formatting, pinned to the one scheme the library uses, which chrono
/// renders without error: year (zero-padded to four digits, a sign
/// before them for years before year zero), month, day, hour, minute
/// and second as zero-padded decimal fields joined by `-`, `T` and `_`
/// — at least 19 characters, and never a `/`.  Beyond that the text
/// depends on the clock and the machine's time zone, so nothing more is
/// promised of it.
#[verifier::external_body]
fn local_now_formatted(fmt: &str) -> (r: String)
    requires
        fmt@ == "%Y-%m-%dT%H_%M_%S"@,
    ensures
        r@.len() >= 19,
        forall|i: int| 0 <= i < r@.len() ==> r@[i] != '/',
{
    format!("{}", chrono::Local::now().format(fmt))
}

/// The current local time at second precision, with `_` in place of `:`
/// so the text is safe inside a file name: at least 19 characters and
/// free of `/`, so a backup candidate built from it stays in the link's
/// directory (see [`lemma_candidate_is_sibling`]).
pub fn timestamp_now() -> (r: String)
    ensures
        r@.len() >= 19,
        forall|i: int| 0 <= i < r@.len() ==> r@[i] != '/',
{
    local_now_formatted("%Y-%m-%dT%H_%M_%S")
}

} // verus!
