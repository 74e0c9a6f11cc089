//! The FFI raw-pointer lint.
//!
//! `pub extern "C"` (or `pub extern "C-unwind"`) functions must not take or
//! return raw pointers: every FFI function goes through the FFI boundary
//! wrapper or passes opaque `u64` tokens. The lint scans source text for the
//! signatures that such a marker opens, each running from the marker to the
//! first `{` or `;` after it, across lines, and reports the line of the first
//! marker whose signature holds `*const` or `*mut`. Reading files and walking
//! directories is left to the caller; this module decides on the text and on
//! each directory entry.

use vstd::prelude::*;
use vstd::string::StringSliceAdditionalSpecFns;

verus! {

/// The byte value of a line feed.
pub open spec fn line_feed() -> u8 {
    10
}

/// The number of line feeds in `s`: the index, counted from zero, of the
/// line in which the text following `s` starts.
pub open spec fn line_feeds(s: Seq<u8>) -> nat
    decreases s.len(),
{
    if s.len() == 0 {
        0
    } else {
        line_feeds(s.drop_last()) + if s.last() == line_feed() {
            1nat
        } else {
            0nat
        }
    }
}

/// `pat` occurs in `hay` as a contiguous run of bytes.
pub open spec fn occurs(hay: Seq<u8>, pat: Seq<u8>) -> bool {
    exists|i: int| 0 <= i && i + pat.len() <= hay.len() && #[trigger] hay.subrange(i, i + pat.len()) == pat
}

/// `pat` starts at position `i` of `s`.
pub open spec fn matches_at(s: Seq<u8>, i: int, pat: Seq<u8>) -> bool {
    0 <= i && i + pat.len() <= s.len() && s.subrange(i, i + pat.len()) == pat
}

pub open spec fn extern_c_marker() -> Seq<u8> {
    "pub extern \"C\"".spec_bytes()
}

pub open spec fn extern_c_unwind_marker() -> Seq<u8> {
    "pub extern \"C-unwind\"".spec_bytes()
}

pub open spec fn const_pointer_marker() -> Seq<u8> {
    "*const".spec_bytes()
}

pub open spec fn mut_pointer_marker() -> Seq<u8> {
    "*mut".spec_bytes()
}

/// A `pub extern "C"` or `pub extern "C-unwind"` marker starts at `i`.
pub open spec fn marker_at(s: Seq<u8>, i: int) -> bool {
    matches_at(s, i, extern_c_marker()) || matches_at(s, i, extern_c_unwind_marker())
}

/// The byte ends a signature: `{` opens the body, `;` ends a declaration.
pub open spec fn ends_signature(b: u8) -> bool {
    b == '{' as u8 || b == ';' as u8
}

/// `j` is where the signature starting at `i` ends: the first `{` or `;` at
/// or after `i`, or the end of the text.
pub open spec fn is_signature_end(s: Seq<u8>, i: int, j: int) -> bool {
    &&& i <= j <= s.len()
    &&& (j == s.len() || ends_signature(s[j]))
    &&& forall|t: int| i <= t < j ==> !ends_signature(#[trigger] s[t])
}

/// The signature that starts at `i`: the text up to its end.
pub open spec fn signature(s: Seq<u8>, i: int) -> Seq<u8> {
    s.subrange(i, choose|j: int| is_signature_end(s, i, j))
}

/// A marker starts at `i` and the signature it opens holds a raw pointer
/// type (`*const` or `*mut`).
pub open spec fn violation_at(s: Seq<u8>, i: int) -> bool {
    &&& marker_at(s, i)
    &&& (occurs(signature(s, i), const_pointer_marker()) || occurs(
        signature(s, i),
        mut_pointer_marker(),
    ))
}

/// Two ends of the same signature are the same.
proof fn lemma_signature_end_unique(s: Seq<u8>, i: int, a: int, b: int)
    requires
        is_signature_end(s, i, a),
        is_signature_end(s, i, b),
    ensures
        a == b,
{
    if a < b {
        assert(!ends_signature(s[a]));
    } else if b < a {
        assert(!ends_signature(s[b]));
    }
}

/// Whether `pat` occurs at position `i` of `content`.
fn occurs_at(content: &[u8], i: usize, pat: &[u8]) -> (r: bool)
    requires
        i + pat@.len() <= content@.len(),
    ensures
        r == (content@.subrange(i as int, i + pat@.len()) == pat@),
{
    let m = pat.len();
    let n = content.len();
    let mut j: usize = 0;
    while j < m
        invariant
            m == pat@.len(),
            n == content@.len(),
            i + m <= content@.len(),
            j <= m,
            forall|t: int| 0 <= t < j ==> content@[i + t] == #[trigger] pat@[t],
        decreases m - j,
    {
        if content[i + j] != pat[j] {
            assert(content@.subrange(i as int, i + m)[j as int] != pat@[j as int]);
            return false;
        }
        j = j + 1;
    }
    assert(content@.subrange(i as int, i + m) =~= pat@);
    true
}

/// Whether `pat` starts at position `i` of `content`.
fn starts_at(content: &[u8], i: usize, pat: &[u8]) -> (r: bool)
    requires
        i <= content@.len(),
    ensures
        r == matches_at(content@, i as int, pat@),
{
    if pat.len() <= content.len() - i {
        occurs_at(content, i, pat)
    } else {
        false
    }
}

/// Whether `pat` occurs in `content[start..end]`.
fn occurs_between(content: &[u8], start: usize, end: usize, pat: &[u8]) -> (r: bool)
    requires
        start <= end <= content@.len(),
    ensures
        r == occurs(content@.subrange(start as int, end as int), pat@),
{
    let ghost hay = content@.subrange(start as int, end as int);
    let n = content.len();
    let m = pat.len();
    if m > end - start {
        assert forall|i: int| 0 <= i && i + m <= hay.len() implies #[trigger] hay.subrange(i, i + m) != pat@ by {}
        return false;
    }
    if m == 0 {
        assert(hay.subrange(0int, 0int + pat@.len()) =~= pat@);
        assert(occurs(hay, pat@));
        return true;
    }
    let last = end - m;
    let mut i: usize = start;
    while i <= last
        invariant
            start <= i <= last + 1,
            last + m == end,
            end <= n,
            n == content@.len(),
            m == pat@.len(),
            m > 0,
            hay == content@.subrange(start as int, end as int),
            forall|t: int| 0 <= t < i - start ==> #[trigger] hay.subrange(t, t + m) != pat@,
        decreases last + 1 - i,
    {
        assert(hay.subrange(i - start, i - start + m) =~= content@.subrange(i as int, i + m));
        if occurs_at(content, i, pat) {
            return true;
        }
        i = i + 1;
    }
    false
}

/// What the lint answers on the text `s`: the line, counted from zero, of
/// the first violating marker, or `None` if there is none.
pub open spec fn lint_answer(s: Seq<u8>, r: Option<usize>) -> bool {
    match r {
        Some(k) => exists|i: int|
            {
                &&& 0 <= i < s.len()
                &&& violation_at(s, i)
                &&& forall|j: int| 0 <= j < i ==> !violation_at(s, j)
                &&& k == line_feeds(#[trigger] s.take(i))
            },
        None => forall|i: int| 0 <= i < s.len() ==> !violation_at(s, i),
    }
}

/// Scans Rust source text for `pub extern "C"` (or `"C-unwind"`) signatures
/// with raw pointers. Returns the line, counted from zero, of the first
/// marker whose signature (up to the first `{` or `;`, across lines) holds
/// `*const` or `*mut`, or `None` if the text passes.
pub fn check_source(content: &str) -> (r: Option<usize>)
    ensures
        lint_answer(content.spec_bytes(), r),
{
    let bytes = content.as_bytes();
    let extern_c = "pub extern \"C\"".as_bytes();
    let extern_c_unwind = "pub extern \"C-unwind\"".as_bytes();
    let const_ptr = "*const".as_bytes();
    let mut_ptr = "*mut".as_bytes();
    let ghost s = bytes@;
    let n = bytes.len();
    let mut i: usize = 0;
    let mut lf: usize = 0;
    proof {
        assert(s.take(0) =~= Seq::<u8>::empty());
    }
    while i < n
        invariant
            n == s.len(),
            s == bytes@,
            s == content.spec_bytes(),
            extern_c@ == extern_c_marker(),
            extern_c_unwind@ == extern_c_unwind_marker(),
            const_ptr@ == const_pointer_marker(),
            mut_ptr@ == mut_pointer_marker(),
            i <= n,
            lf <= i,
            lf == line_feeds(s.take(i as int)),
            forall|j: int| 0 <= j < i ==> !violation_at(s, j),
        decreases n - i,
    {
        if starts_at(bytes, i, extern_c) || starts_at(bytes, i, extern_c_unwind) {
            let mut end = i;
            while end < n && bytes[end] != '{' as u8 && bytes[end] != ';' as u8
                invariant
                    n == s.len(),
                    s == bytes@,
                    i <= end <= n,
                    forall|t: int| i <= t < end ==> !ends_signature(#[trigger] s[t]),
                decreases n - end,
            {
                end = end + 1;
            }
            proof {
                assert(is_signature_end(s, i as int, end as int));
                let chosen = choose|j: int| is_signature_end(s, i as int, j);
                lemma_signature_end_unique(s, i as int, chosen, end as int);
                assert(signature(s, i as int) == s.subrange(i as int, end as int));
            }
            if occurs_between(bytes, i, end, const_ptr) || occurs_between(bytes, i, end, mut_ptr) {
                assert(violation_at(s, i as int));
                return Some(lf);
            }
        }
        proof {
            assert(s.take(i + 1).drop_last() =~= s.take(i as int));
            assert(s.take(i + 1).last() == s[i as int]);
        }
        if bytes[i] == 10 {
            lf = lf + 1;
        }
        i = i + 1;
    }
    None
}

/// A `pub extern "C"` or `pub extern "C-unwind"` marker starts at `i` (the
/// markers written out).
pub open spec fn pub_extern_at(s: Seq<u8>, i: int) -> bool {
    matches_at(s, i, "pub extern \"C\"".spec_bytes()) || matches_at(
        s,
        i,
        "pub extern \"C-unwind\"".spec_bytes(),
    )
}

/// `s[i..e]` holds no `{` and no `;`.
pub open spec fn no_brace_or_semicolon(s: Seq<u8>, i: int, e: int) -> bool {
    forall|t: int| i <= t < e ==> #[trigger] s[t] != '{' as u8 && s[t] != ';' as u8
}

/// `*const` or `*mut` occurs in `t` (the pointer types written out).
pub open spec fn holds_raw_pointer(t: Seq<u8>) -> bool {
    occurs(t, "*const".spec_bytes()) || occurs(t, "*mut".spec_bytes())
}

/// The markers are not empty.
proof fn lemma_markers_nonempty()
    ensures
        "pub extern \"C\"".spec_bytes().len() > 0,
        "pub extern \"C-unwind\"".spec_bytes().len() > 0,
{
    reveal_strlit("pub extern \"C\"");
    reveal_strlit("pub extern \"C-unwind\"");
    assert("pub extern \"C\""@.len() > 0);
    assert("pub extern \"C-unwind\""@.len() > 0);
}

/// Some signature end exists: the first `{` or `;` at or after `from`, or
/// the end of the text.
proof fn lemma_signature_end_exists(s: Seq<u8>, i: int, from: int)
    requires
        0 <= i <= from <= s.len(),
        forall|t: int| i <= t < from ==> !ends_signature(#[trigger] s[t]),
    ensures
        exists|j: int| is_signature_end(s, i, j),
    decreases s.len() - from,
{
    if from == s.len() {
        assert(is_signature_end(s, i, from));
    } else if ends_signature(s[from]) {
        assert(is_signature_end(s, i, from));
    } else {
        lemma_signature_end_exists(s, i, from + 1);
    }
}

/// Line feeds only accumulate along the text.
proof fn lemma_line_feeds_monotone(s: Seq<u8>, a: int, b: int)
    requires
        0 <= a <= b <= s.len(),
    ensures
        line_feeds(s.take(a)) <= line_feeds(s.take(b)),
    decreases b - a,
{
    if a < b {
        lemma_line_feeds_monotone(s, a, b - 1);
        assert(s.take(b).drop_last() =~= s.take(b - 1));
    }
}

/// A pattern found in a prefix of a text is found in the text.
proof fn lemma_occurs_in_longer(s: Seq<u8>, i: int, e: int, j: int, pat: Seq<u8>)
    requires
        0 <= i <= e <= j <= s.len(),
        occurs(s.subrange(i, e), pat),
    ensures
        occurs(s.subrange(i, j), pat),
{
    let w = choose|w: int|
        0 <= w && w + pat.len() <= s.subrange(i, e).len() && #[trigger] s.subrange(i, e).subrange(
            w,
            w + pat.len(),
        ) == pat;
    assert(s.subrange(i, j).subrange(w, w + pat.len()) =~= s.subrange(i, e).subrange(w, w + pat.len()));
}

/// A raw pointer anywhere in a `pub extern "C"` or `pub extern "C-unwind"`
/// signature before its first `{` or `;` (in a parameter or in the return
/// type, on any line) is reported: the lint answers the line of this marker
/// or of an earlier violation.
pub proof fn law_lint_reports_pointer_in_signature(s: Seq<u8>, r: Option<usize>, i: int, e: int)
    requires
        lint_answer(s, r),
        pub_extern_at(s, i),
        i <= e <= s.len(),
        no_brace_or_semicolon(s, i, e),
        holds_raw_pointer(s.subrange(i, e)),
    ensures
        r is Some,
        r->0 <= line_feeds(s.take(i)),
{
    lemma_signature_end_exists(s, i, i);
    let j = choose|j: int| is_signature_end(s, i, j);
    if j < e {
        assert(s[j] != '{' as u8 && s[j] != ';' as u8);
    }
    assert(e <= j);
    if occurs(s.subrange(i, e), "*const".spec_bytes()) {
        lemma_occurs_in_longer(s, i, e, j, "*const".spec_bytes());
    } else {
        lemma_occurs_in_longer(s, i, e, j, "*mut".spec_bytes());
    }
    assert(signature(s, i) == s.subrange(i, j));
    assert(violation_at(s, i));
    match r {
        Some(k) => {
            let f = choose|f: int|
                {
                    &&& 0 <= f < s.len()
                    &&& violation_at(s, f)
                    &&& forall|g: int| 0 <= g < f ==> !violation_at(s, g)
                    &&& k == line_feeds(#[trigger] s.take(f))
                };
            assert(f <= i);
            lemma_line_feeds_monotone(s, f, i);
        },
        None => {
            lemma_markers_nonempty();
            assert(i < s.len());
        },
    }
}

/// Every reported line holds a `pub extern "C"` or `pub extern "C-unwind"`
/// marker whose signature, running to the first `{` or `;` after it (or to
/// the end of the text), holds `*const` or `*mut`.
pub proof fn law_lint_reports_only_pointer_signatures(s: Seq<u8>, k: usize)
    requires
        lint_answer(s, Some(k)),
    ensures
        exists|i: int, e: int|
            {
                &&& pub_extern_at(s, i)
                &&& k == line_feeds(#[trigger] s.take(i))
                &&& #[trigger] no_brace_or_semicolon(s, i, e)
                &&& i <= e <= s.len()
                &&& (e == s.len() || s[e] == '{' as u8 || s[e] == ';' as u8)
                &&& holds_raw_pointer(s.subrange(i, e))
            },
{
    let i = choose|i: int|
        {
            &&& 0 <= i < s.len()
            &&& violation_at(s, i)
            &&& forall|j: int| 0 <= j < i ==> !violation_at(s, j)
            &&& k == line_feeds(#[trigger] s.take(i))
        };
    lemma_signature_end_exists(s, i, i);
    let e = choose|j: int| is_signature_end(s, i, j);
    assert(no_brace_or_semicolon(s, i, e));
    assert(pub_extern_at(s, i));
}

/// Text that holds neither `pub extern "C"` nor `pub extern "C-unwind"`
/// passes, whatever raw pointers it holds (private `extern "C"` callbacks
/// included).
pub proof fn law_lint_passes_text_without_pub_extern(s: Seq<u8>, r: Option<usize>)
    requires
        lint_answer(s, r),
        !occurs(s, "pub extern \"C\"".spec_bytes()),
        !occurs(s, "pub extern \"C-unwind\"".spec_bytes()),
    ensures
        r is None,
{
    if r is Some {
        law_lint_reports_only_pointer_signatures(s, r->0);
        let (i, e) = choose|i: int, e: int|
            {
                &&& pub_extern_at(s, i)
                &&& r->0 == line_feeds(#[trigger] s.take(i))
                &&& #[trigger] no_brace_or_semicolon(s, i, e)
                &&& i <= e <= s.len()
                &&& (e == s.len() || s[e] == '{' as u8 || s[e] == ';' as u8)
                &&& holds_raw_pointer(s.subrange(i, e))
            };
        if matches_at(s, i, "pub extern \"C\"".spec_bytes()) {
            assert(s.subrange(i, i + "pub extern \"C\"".spec_bytes().len()) == "pub extern \"C\"".spec_bytes());
        } else {
            assert(s.subrange(i, i + "pub extern \"C-unwind\"".spec_bytes().len())
                == "pub extern \"C-unwind\"".spec_bytes());
        }
    }
}

/// The markers start with `p`.
proof fn lemma_markers_start_with_p()
    ensures
        "pub extern \"C\"".spec_bytes().len() > 0,
        "pub extern \"C\"".spec_bytes()[0] == 'p' as u8,
        "pub extern \"C-unwind\"".spec_bytes().len() > 0,
        "pub extern \"C-unwind\"".spec_bytes()[0] == 'p' as u8,
{
    reveal_strlit("pub extern \"C\"");
    reveal_strlit("pub extern \"C-unwind\"");
    let a = "pub extern \"C\""@;
    let b = "pub extern \"C-unwind\""@;
    assert(vstd::utf8::is_ascii_chars(a));
    assert(vstd::utf8::is_ascii_chars(b));
    vstd::utf8::is_ascii_chars_encode_utf8(a);
    vstd::utf8::is_ascii_chars_encode_utf8(b);
    assert(a[0] == 'p');
    assert(b[0] == 'p');
}

/// Counting line feeds after one more leading byte.
proof fn lemma_line_feeds_prefix(b: u8, t: Seq<u8>)
    ensures
        line_feeds(seq![b] + t) == line_feeds(t) + if b == line_feed() {
            1nat
        } else {
            0nat
        },
    decreases t.len(),
{
    let u = seq![b] + t;
    if t.len() > 0 {
        assert(u.drop_last() =~= seq![b] + t.drop_last());
        assert(u.last() == t.last());
        lemma_line_feeds_prefix(b, t.drop_last());
    } else {
        assert(u.drop_last() =~= Seq::<u8>::empty());
        assert(u.last() == b);
        assert(line_feeds(Seq::<u8>::empty()) == 0);
    }
}

/// A pattern starts at `i` of `s` exactly when it starts at `i + 1` after a
/// leading byte.
proof fn lemma_matches_shift(b: u8, s: Seq<u8>, i: int, pat: Seq<u8>)
    requires
        0 <= i,
    ensures
        matches_at(seq![b] + s, i + 1, pat) == matches_at(s, i, pat),
{
    let t = seq![b] + s;
    if i + pat.len() <= s.len() {
        assert(t.subrange(i + 1, i + 1 + pat.len()) =~= s.subrange(i, i + pat.len()));
    }
}

/// Violations move one place right after a leading byte.
proof fn lemma_violation_shift(b: u8, s: Seq<u8>, i: int)
    requires
        0 <= i,
    ensures
        violation_at(seq![b] + s, i + 1) == violation_at(s, i),
{
    let t = seq![b] + s;
    lemma_matches_shift(b, s, i, extern_c_marker());
    lemma_matches_shift(b, s, i, extern_c_unwind_marker());
    if marker_at(s, i) {
        lemma_signature_end_exists(s, i, i);
        let j = choose|j: int| is_signature_end(s, i, j);
        assert forall|u: int| i + 1 <= u < j + 1 implies !ends_signature(#[trigger] t[u]) by {
            assert(t[u] == s[u - 1]);
        }
        assert(is_signature_end(t, i + 1, j + 1));
        let k = i + 1;
        let j2 = choose|j2: int| is_signature_end(t, k, j2);
        lemma_signature_end_unique(t, k, j2, j + 1);
        assert(signature(t, i + 1) =~= signature(s, i));
    }
}

/// No violation starts at a leading byte other than `p`.
proof fn lemma_no_violation_at_leading_byte(b: u8, s: Seq<u8>)
    requires
        b != 'p' as u8,
    ensures
        !violation_at(seq![b] + s, 0),
{
    lemma_markers_start_with_p();
    let t = seq![b] + s;
    if matches_at(t, 0, extern_c_marker()) {
        assert(t.subrange(0, extern_c_marker().len() as int)[0] == t[0]);
    }
    if matches_at(t, 0, extern_c_unwind_marker()) {
        assert(t.subrange(0, extern_c_unwind_marker().len() as int)[0] == t[0]);
    }
}

/// Reports move with the text's lines: putting a line feed before the text
/// moves the reported line one down, and putting any other byte but `p`
/// before it changes nothing (a carriage return or a space is no new line,
/// and no marker can start at it).
pub proof fn law_lint_follows_lines(b: u8, s: Seq<u8>, r1: Option<usize>, r2: Option<usize>)
    requires
        lint_answer(s, r1),
        lint_answer(seq![b] + s, r2),
        b != 'p' as u8,
    ensures
        r1 is None <==> r2 is None,
        r1 is Some ==> r2->0 == r1->0 + if b == line_feed() {
            1int
        } else {
            0int
        },
{
    let t = seq![b] + s;
    lemma_no_violation_at_leading_byte(b, s);
    match r1 {
        Some(k1) => {
            let i = choose|i: int|
                {
                    &&& 0 <= i < s.len()
                    &&& violation_at(s, i)
                    &&& forall|j: int| 0 <= j < i ==> !violation_at(s, j)
                    &&& k1 == line_feeds(#[trigger] s.take(i))
                };
            lemma_violation_shift(b, s, i);
            assert forall|j: int| 0 <= j < i + 1 implies !violation_at(t, j) by {
                if j > 0 {
                    lemma_violation_shift(b, s, j - 1);
                }
            }
            assert(t.take(i + 1) =~= seq![b] + s.take(i));
            lemma_line_feeds_prefix(b, s.take(i));
            match r2 {
                Some(k2) => {
                    let i2 = choose|i2: int|
                        {
                            &&& 0 <= i2 < t.len()
                            &&& violation_at(t, i2)
                            &&& forall|j: int| 0 <= j < i2 ==> !violation_at(t, j)
                            &&& k2 == line_feeds(#[trigger] t.take(i2))
                        };
                    assert(i2 == i + 1);
                },
                None => {
                    assert(!violation_at(t, i + 1));
                },
            }
        },
        None => {
            if r2 is Some {
                let i2 = choose|i2: int|
                    {
                        &&& 0 <= i2 < t.len()
                        &&& violation_at(t, i2)
                        &&& forall|j: int| 0 <= j < i2 ==> !violation_at(t, j)
                        &&& r2->0 == line_feeds(#[trigger] t.take(i2))
                    };
                assert(i2 > 0);
                lemma_violation_shift(b, s, i2 - 1);
                assert(!violation_at(s, i2 - 1));
            }
        },
    }
}

/// The scan's decision `a` on an entry.
pub open spec fn walk_decision(is_dir: bool, name_allows_descent: bool, has_rs_extension: bool, a: WalkAction) -> bool {
    a == (if is_dir && name_allows_descent {
        WalkAction::Descend
    } else if has_rs_extension {
        WalkAction::Check
    } else {
        WalkAction::Skip
    })
}

/// The scan descends exactly into the directories whose name allows it (so
/// never into `target`), checks only `.rs` entries it does not descend into,
/// and skips every other entry.
pub proof fn law_walk_decisions(is_dir: bool, name_allows_descent: bool, has_rs_extension: bool, a: WalkAction)
    requires
        walk_decision(is_dir, name_allows_descent, has_rs_extension, a),
    ensures
        a is Descend <==> is_dir && name_allows_descent,
        a is Check <==> has_rs_extension && !(is_dir && name_allows_descent),
        a is Skip <==> !has_rs_extension && !(is_dir && name_allows_descent),
{
}

/// The count after a file: `r` from `violations` and the file's verdict.
pub open spec fn tally(violations: u32, file_passed: Option<bool>, r: u32) -> bool {
    r == (if file_passed == Some(false) {
        violations + 1
    } else {
        violations as int
    })
}

/// Only a failing file is counted, and it is counted once: the count grows
/// by exactly one for a file that failed and stays for a file that passed or
/// could not be read.
pub proof fn law_tally_counts_failures(violations: u32, file_passed: Option<bool>, r: u32)
    requires
        tally(violations, file_passed, r),
    ensures
        file_passed == Some(false) ==> r == violations + 1,
        file_passed != Some(false) ==> r == violations,
{
}

/// What a directory scan does with one directory entry.
#[derive(Debug, Clone, Copy, PartialEq, Eq, Structural)]
pub enum WalkAction {
    /// Scan the directory recursively.
    Descend,
    /// Check the file with [`check_source`].
    Check,
    /// Ignore the entry.
    Skip,
}

/// The scan's decision for one entry: descend into a directory whose name
/// allows it (it has a name, and the name is not `target`), check an entry
/// whose extension is `rs`, skip anything else.
pub fn walk_action(is_dir: bool, name_allows_descent: bool, has_rs_extension: bool) -> (a: WalkAction)
    ensures
        a == (if is_dir && name_allows_descent {
            WalkAction::Descend
        } else if has_rs_extension {
            WalkAction::Check
        } else {
            WalkAction::Skip
        }),
        walk_decision(is_dir, name_allows_descent, has_rs_extension, a),
{
    if is_dir && name_allows_descent {
        WalkAction::Descend
    } else if has_rs_extension {
        WalkAction::Check
    } else {
        WalkAction::Skip
    }
}

/// The count of violating files after one checked file: a file that failed
/// the lint (`Some(false)`) adds one; a file that passed (`Some(true)`) or
/// could not be read (`None`) adds nothing. The count must have room for the
/// failing file.
pub fn count_violation(violations: u32, file_passed: Option<bool>) -> (r: u32)
    requires
        file_passed == Some(false) ==> violations < u32::MAX,
    ensures
        r == (if file_passed == Some(false) {
            violations + 1
        } else {
            violations as int
        }),
        tally(violations, file_passed, r),
{
    match file_passed {
        Some(false) => violations + 1,
        _ => violations,
    }
}

} // verus!
