//! The update check against the project's latest release.

use vstd::prelude::*;
use crate::text::{parse_u64, parse_u64_spec};

verus! {

/// `s` without its leading `v` characters, as `trim_start_matches('v')`.
pub open spec fn strip_leading_v(s: Seq<char>) -> Seq<char>
    decreases s.len(),
{
    if s.len() > 0 && s[0] == 'v' {
        strip_leading_v(s.drop_first())
    } else {
        s
    }
}

proof fn lemma_strip_leading_v_skip(s: Seq<char>, i: int)
    requires
        0 <= i <= s.len(),
        forall|j: int| 0 <= j < i ==> s[j] == 'v',
    ensures
        strip_leading_v(s) == strip_leading_v(s.skip(i)),
    decreases i,
{
    if i > 0 {
        assert(s[0] == 'v');
        lemma_strip_leading_v_skip(s.drop_first(), i - 1);
        assert(s.drop_first().skip(i - 1) =~= s.skip(i));
    } else {
        assert(s.skip(0) =~= s);
    }
}

/// A version text without its leading `v`s.
pub fn strip_version_prefix(s: &str) -> (r: String)
    ensures
        r@ == strip_leading_v(s@),
{
    let n = s.unicode_len();
    let mut i: usize = 0;
    while i < n && s.get_char(i) == 'v'
        invariant
            n == s@.len(),
            i <= n,
            forall|j: int| 0 <= j < i ==> s@[j] == 'v',
        decreases n - i,
    {
        i = i + 1;
    }
    proof {
        lemma_strip_leading_v_skip(s@, i as int);
        assert(s@.skip(i as int) =~= s@.subrange(i as int, n as int));
    }
    let rest = s.substring_char(i, n);
    String::from_str(rest)
}

/// The position of the first `.` in `s`, or its length when there is none.
pub open spec fn first_dot(s: Seq<char>) -> nat
    decreases s.len(),
{
    if s.len() == 0 || s[0] == '.' {
        0
    } else {
        1 + first_dot(s.drop_first())
    }
}

proof fn lemma_first_dot_scan(s: Seq<char>, i: int)
    requires
        0 <= i <= s.len(),
        forall|j: int| 0 <= j < i ==> s[j] != '.',
    ensures
        first_dot(s) == i + first_dot(s.skip(i)),
    decreases i,
{
    if i > 0 {
        lemma_first_dot_scan(s.drop_first(), i - 1);
        assert(s.drop_first().skip(i - 1) =~= s.skip(i));
    } else {
        assert(s.skip(0) =~= s);
    }
}

/// The numbers of a dotted version such as `1.12.0`; `None` when a part
/// between dots is not an unsigned number.
pub open spec fn version_parts(s: Seq<char>) -> Option<Seq<u64>>
    decreases s.len(),
{
    let i = first_dot(s);
    match parse_u64_spec(s.take(i as int)) {
        None => None,
        Some(v) => if i >= s.len() {
            Some(seq![v])
        } else {
            match version_parts(s.skip(i + 1int)) {
                Some(rest) => Some(seq![v] + rest),
                None => None,
            }
        },
    }
}

/// The numbers of a dotted version, `None` when it is not one.
pub fn parse_version(s: &str) -> (res: Option<Vec<u64>>)
    ensures
        match version_parts(s@) {
            None => res is None,
            Some(p) => res matches Some(v) && v@ == p,
        },
    decreases s@.len(),
{
    let n = s.unicode_len();
    let mut i: usize = 0;
    while i < n && s.get_char(i) != '.'
        invariant
            n == s@.len(),
            i <= n,
            forall|j: int| 0 <= j < i ==> s@[j] != '.',
        decreases n - i,
    {
        i = i + 1;
    }
    proof {
        lemma_first_dot_scan(s@, i as int);
        if i < n {
            assert(s@.skip(i as int)[0] == '.');
        } else {
            assert(s@.skip(i as int).len() == 0);
        }
        assert(first_dot(s@) == i);
    }
    let head = s.substring_char(0, i);
    assert(head@ =~= s@.take(i as int));
    match parse_u64(head) {
        None => None,
        Some(v) => {
            if i >= n {
                let mut out: Vec<u64> = Vec::new();
                out.push(v);
                assert(out@ =~= seq![v]);
                Some(out)
            } else {
                let rest = s.substring_char(i + 1, n);
                assert(rest@ =~= s@.skip(i + 1));
                match parse_version(rest) {
                    Some(mut r) => {
                        let ghost tail = r@;
                        r.insert(0, v);
                        assert(r@ =~= seq![v] + tail);
                        Some(r)
                    },
                    None => None,
                }
            }
        },
    }
}

/// Version `a` is newer than version `b`: at the first place where their
/// numbers differ, `a`'s is larger; missing trailing numbers count as 0.
pub open spec fn newer_parts(a: Seq<u64>, b: Seq<u64>) -> bool
    decreases a.len() + b.len(),
{
    if a.len() == 0 && b.len() == 0 {
        false
    } else {
        let x: u64 = if a.len() > 0 { a[0] } else { 0 };
        let y: u64 = if b.len() > 0 { b[0] } else { 0 };
        if x != y {
            x > y
        } else {
            newer_parts(
                if a.len() > 0 { a.drop_first() } else { a },
                if b.len() > 0 { b.drop_first() } else { b },
            )
        }
    }
}

/// The numbers of `s` from position `i` on (none past its end).
pub open spec fn parts_from(s: Seq<u64>, i: int) -> Seq<u64> {
    if i <= s.len() {
        s.skip(i)
    } else {
        Seq::empty()
    }
}

/// Whether version `a` is newer than version `b`.
pub fn is_newer(a: &Vec<u64>, b: &Vec<u64>) -> (r: bool)
    ensures
        r == newer_parts(a@, b@),
{
    let mut i: usize = 0;
    assert(parts_from(a@, 0) =~= a@);
    assert(parts_from(b@, 0) =~= b@);
    while i < a.len() || i < b.len()
        invariant
            newer_parts(a@, b@) == newer_parts(parts_from(a@, i as int), parts_from(b@, i as int)),
            i <= a@.len() || i <= b@.len(),
        decreases (if a@.len() > b@.len() { a@.len() } else { b@.len() }) - i,
    {
        let x: u64 = if i < a.len() { a[i] } else { 0 };
        let y: u64 = if i < b.len() { b[i] } else { 0 };
        let ghost pa = parts_from(a@, i as int);
        let ghost pb = parts_from(b@, i as int);
        proof {
            if i < a.len() {
                assert(pa[0] == a@[i as int]);
                assert(pa.drop_first() =~= parts_from(a@, i + 1));
            } else {
                assert(parts_from(a@, i + 1) =~= pa);
            }
            if i < b.len() {
                assert(pb[0] == b@[i as int]);
                assert(pb.drop_first() =~= parts_from(b@, i + 1));
            } else {
                assert(parts_from(b@, i + 1) =~= pb);
            }
        }
        if x != y {
            return x > y;
        }
        i = i + 1;
    }
    proof {
        assert(parts_from(a@, i as int).len() == 0);
        assert(parts_from(b@, i as int).len() == 0);
    }
    false
}

/// The latest release's version (leading `v`s ignored) is newer than the
/// running one; a version that is not dotted numbers is never newer.
pub open spec fn is_newer_version(remote: Seq<char>, local: Seq<char>) -> bool {
    match (version_parts(strip_leading_v(remote)), version_parts(strip_leading_v(local))) {
        (Some(r), Some(l)) => newer_parts(r, l),
        _ => false,
    }
}

/// No version is newer than itself.
pub proof fn lemma_not_newer_than_itself(a: Seq<u64>)
    ensures
        !newer_parts(a, a),
    decreases a.len(),
{
    if a.len() > 0 {
        lemma_not_newer_than_itself(a.drop_first());
    }
}

/// Of two versions, at most one is newer than the other.
pub proof fn lemma_newer_is_asymmetric(a: Seq<u64>, b: Seq<u64>)
    ensures
        !(newer_parts(a, b) && newer_parts(b, a)),
    decreases a.len() + b.len(),
{
    if a.len() > 0 || b.len() > 0 {
        let x: u64 = if a.len() > 0 { a[0] } else { 0 };
        let y: u64 = if b.len() > 0 { b[0] } else { 0 };
        if x == y {
            lemma_newer_is_asymmetric(
                if a.len() > 0 { a.drop_first() } else { a },
                if b.len() > 0 { b.drop_first() } else { b },
            );
        }
    }
}

/// The running version is never offered as an update to itself, and of two
/// versions at most one is an update to the other.
pub proof fn lemma_update_check_is_strict(remote: Seq<char>, local: Seq<char>)
    ensures
        !is_newer_version(local, local),
        !(is_newer_version(remote, local) && is_newer_version(local, remote)),
{
    if let Some(l) = version_parts(strip_leading_v(local)) {
        lemma_not_newer_than_itself(l);
        if let Some(r) = version_parts(strip_leading_v(remote)) {
            lemma_newer_is_asymmetric(r, l);
        }
    }
}

/// `Some((version, url))` of the latest release when it is newer than the
/// running version (leading `v`s ignored on both), else `None`.
pub fn update_available(tag_name: &str, self_url: String, current_version: &str) -> (res: Option<(String, String)>)
    ensures
        is_newer_version(tag_name@, current_version@) ==> (res matches Some((v, u)) && v@ == strip_leading_v(
            tag_name@,
        ) && u == self_url),
        !is_newer_version(tag_name@, current_version@) ==> res is None,
{
    let remote = strip_version_prefix(tag_name);
    let local = strip_version_prefix(current_version);
    let newer = match (parse_version(remote.as_str()), parse_version(local.as_str())) {
        (Some(r), Some(l)) => is_newer(&r, &l),
        _ => false,
    };
    if newer {
        Some((remote, self_url))
    } else {
        None
    }
}

} // verus!
