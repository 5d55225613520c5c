use vstd::prelude::*;

verus! {

pub open spec fn is_ws(b: u8) -> bool {
    b == 32u8 || b == 9u8 || b == 13u8 || b == 10u8
}

fn byte_is_ws(b: u8) -> (r: bool)
    ensures
        r == is_ws(b),
{
    b == 32 || b == 9 || b == 13 || b == 10
}

pub open spec fn trim_front(s: Seq<u8>) -> Seq<u8>
    decreases s.len(),
{
    if s.len() > 0 && is_ws(s[0]) {
        trim_front(s.drop_first())
    } else {
        s
    }
}

pub open spec fn trim_back(s: Seq<u8>) -> Seq<u8>
    decreases s.len(),
{
    if s.len() > 0 && is_ws(s.last()) {
        trim_back(s.drop_last())
    } else {
        s
    }
}

/// A candidate line with the surrounding whitespace removed.
pub open spec fn trim_spec(s: Seq<u8>) -> Seq<u8> {
    trim_back(trim_front(s))
}

proof fn lemma_trim_front_skip(s: Seq<u8>, lo: int)
    requires
        0 <= lo <= s.len(),
        forall|k: int| 0 <= k < lo ==> is_ws(s[k]),
        lo == s.len() || !is_ws(s[lo]),
    ensures
        trim_front(s) == s.skip(lo),
    decreases lo,
{
    if lo == 0 {
        assert(s.skip(0) =~= s);
    } else {
        assert(is_ws(s[0]));
        assert(s.drop_first() =~= s.skip(1));
        lemma_trim_front_skip(s.skip(1), lo - 1);
        assert(s.skip(1).skip(lo - 1) =~= s.skip(lo));
    }
}

proof fn lemma_trim_back_take(s: Seq<u8>, hi: int)
    requires
        0 <= hi <= s.len(),
        forall|k: int| hi <= k < s.len() ==> is_ws(s[k]),
        hi == 0 || !is_ws(s[hi - 1]),
    ensures
        trim_back(s) == s.take(hi),
    decreases s.len(),
{
    if hi == s.len() {
        assert(s.take(hi) =~= s);
    } else {
        assert(is_ws(s.last()));
        lemma_trim_back_take(s.drop_last(), hi);
        assert(s.drop_last().take(hi) =~= s.take(hi));
    }
}

/// Removes leading and trailing whitespace bytes.
pub fn trim_bytes(v: &Vec<u8>) -> (r: Vec<u8>)
    ensures
        r@ == trim_spec(v@),
{
    let n = v.len();
    let mut lo: usize = 0;
    while lo < n && byte_is_ws(v[lo])
        invariant
            n == v@.len(),
            lo <= n,
            forall|k: int| 0 <= k < lo ==> is_ws(v@[k]),
        decreases n - lo,
    {
        lo = lo + 1;
    }
    let mut hi: usize = n;
    while hi > lo && byte_is_ws(v[hi - 1])
        invariant
            n == v@.len(),
            lo <= hi <= n,
            forall|k: int| hi <= k < n ==> is_ws(v@[k]),
        decreases hi,
    {
        hi = hi - 1;
    }
    let mut r: Vec<u8> = Vec::new();
    let mut k: usize = lo;
    while k < hi
        invariant
            n == v@.len(),
            lo <= k <= hi <= n,
            r@.len() == k - lo,
            forall|j: int| 0 <= j < r@.len() ==> r@[j] == v@[lo + j],
        decreases hi - k,
    {
        r.push(v[k]);
        k = k + 1;
    }
    proof {
        lemma_trim_front_skip(v@, lo as int);
        let t = v@.skip(lo as int);
        lemma_trim_back_take(t, hi - lo);
        assert(r@ =~= t.take(hi - lo));
    }
    r
}

/// Whether `needle` occurs anywhere within `hay`.
pub open spec fn contains_sub(hay: Seq<u8>, needle: Seq<u8>) -> bool {
    exists|i: int|
        0 <= i && i + needle.len() <= hay.len() && #[trigger] hay.subrange(
            i,
            i + needle.len() as int,
        ) == needle
}

/// Substring search over bytes.
pub fn find_sub(hay: &Vec<u8>, needle: &Vec<u8>) -> (r: bool)
    ensures
        r == contains_sub(hay@, needle@),
{
    let m = needle.len();
    let h = hay.len();
    if m == 0 {
        proof {
            assert(hay@.subrange(0, 0 + needle@.len() as int) =~= needle@);
        }
        return true;
    }
    if m > h {
        return false;
    }
    let mut i: usize = 0;
    while i <= h - m
        invariant
            m == needle@.len(),
            h == hay@.len(),
            0 < m <= h,
            i <= h - m + 1,
            forall|ii: int|
                0 <= ii < i ==> #[trigger] hay@.subrange(ii, ii + needle@.len() as int)
                    != needle@,
        decreases h - m + 1 - i,
    {
        let mut j: usize = 0;
        while j < m && hay[i + j] == needle[j]
            invariant
                m == needle@.len(),
                h == hay@.len(),
                0 < m <= h,
                i + m <= h,
                j <= m,
                forall|jj: int| 0 <= jj < j ==> hay@[i + jj] == needle@[jj],
            decreases m - j,
        {
            j = j + 1;
        }
        if j == m {
            proof {
                assert(hay@.subrange(i as int, i + needle@.len() as int) =~= needle@);
            }
            return true;
        }
        proof {
            assert(hay@.subrange(i as int, i + needle@.len() as int)[j as int] != needle@[
                j as int
            ]);
        }
        i = i + 1;
    }
    false
}

/// Whether `hay` ends in `needle`.
pub open spec fn ends_with(hay: Seq<u8>, needle: Seq<u8>) -> bool {
    needle.len() <= hay.len() && hay.subrange(
        hay.len() - needle.len(),
        hay.len() as int,
    ) == needle
}

pub fn ends_with_bytes(hay: &Vec<u8>, needle: &Vec<u8>) -> (r: bool)
    ensures
        r == ends_with(hay@, needle@),
{
    let m = needle.len();
    let h = hay.len();
    if m > h {
        return false;
    }
    let off = h - m;
    let mut j: usize = 0;
    while j < m && hay[off + j] == needle[j]
        invariant
            m == needle@.len(),
            h == hay@.len(),
            m <= h,
            off == h - m,
            j <= m,
            forall|jj: int| 0 <= jj < j ==> hay@[off + jj] == needle@[jj],
        decreases m - j,
    {
        j = j + 1;
    }
    if j == m {
        proof {
            assert(hay@.subrange(h - m, h as int) =~= needle@);
        }
        true
    } else {
        proof {
            assert(hay@.subrange(h - m, h as int)[j as int] != needle@[j as int]);
        }
        false
    }
}

/// The marker of the app-store placeholder: a resolved path that contains
/// it names a shim that only opens a store page, not a usable interpreter.
pub open spec fn windows_apps_marker() -> Seq<u8> {
    seq![87u8, 105u8, 110u8, 100u8, 111u8, 119u8, 115u8, 65u8, 112u8, 112u8, 115u8]
}

/// The executable name a usable candidate must resolve to.
pub open spec fn python_exe_name() -> Seq<u8> {
    seq![112u8, 121u8, 116u8, 104u8, 111u8, 110u8, 46u8, 101u8, 120u8, 101u8]
}

fn windows_apps_bytes() -> (r: Vec<u8>)
    ensures
        r@ == windows_apps_marker(),
{
    let mut r: Vec<u8> = Vec::new();
    r.push(87);
    r.push(105);
    r.push(110);
    r.push(100);
    r.push(111);
    r.push(119);
    r.push(115);
    r.push(65);
    r.push(112);
    r.push(112);
    r.push(115);
    proof {
        assert(r@ =~= windows_apps_marker());
    }
    r
}

fn python_exe_bytes() -> (r: Vec<u8>)
    ensures
        r@ == python_exe_name(),
{
    let mut r: Vec<u8> = Vec::new();
    r.push(112);
    r.push(121);
    r.push(116);
    r.push(104);
    r.push(111);
    r.push(110);
    r.push(46);
    r.push(101);
    r.push(120);
    r.push(101);
    proof {
        assert(r@ =~= python_exe_name());
    }
    r
}

/// A resolved search-path line is usable when, after trimming, it does not
/// point into the app-store shim directory and names the interpreter
/// executable.
pub open spec fn acceptable(line: Seq<u8>) -> bool {
    &&& !contains_sub(trim_spec(line), windows_apps_marker())
    &&& ends_with(trim_spec(line), python_exe_name())
}

/// The index of the first usable candidate line, if any.
pub open spec fn first_acceptable(lines: Seq<Seq<u8>>) -> Option<int>
    decreases lines.len(),
{
    if lines.len() == 0 {
        Option::None
    } else if acceptable(lines[0]) {
        Option::Some(0int)
    } else {
        match first_acceptable(lines.drop_first()) {
            Option::Some(i) => Option::Some(i + 1),
            Option::None => Option::None,
        }
    }
}

/// The views of a list of byte lines.
pub open spec fn byte_views(lines: Seq<Vec<u8>>) -> Seq<Seq<u8>> {
    lines.map_values(|v: Vec<u8>| v@)
}

proof fn lemma_first_acceptable(s: Seq<Seq<u8>>, i: int)
    requires
        0 <= i <= s.len(),
        forall|k: int| 0 <= k < i ==> !acceptable(s[k]),
    ensures
        i < s.len() && acceptable(s[i]) ==> first_acceptable(s) == Option::Some(i),
        i == s.len() ==> first_acceptable(s) is None,
    decreases s.len(),
{
    if s.len() == 0 {
    } else if i == 0 {
    } else {
        assert(!acceptable(s[0]));
        let t = s.drop_first();
        assert(forall|k: int| 0 <= k < i - 1 ==> t[k] == s[k + 1] && !acceptable(t[k]));
        lemma_first_acceptable(t, i - 1);
        if i < s.len() && acceptable(s[i]) {
            assert(t[i - 1] == s[i]);
        }
    }
}

/// Walks the resolved candidate lines in order and returns the first
/// usable one, trimmed; `None` when no candidate is usable.
pub fn resolve_candidate(lines: &Vec<Vec<u8>>) -> (r: Option<Vec<u8>>)
    ensures
        match r {
            Option::Some(t) => {
                &&& first_acceptable(byte_views(lines@)) is Some
                &&& t@ == trim_spec(byte_views(lines@)[first_acceptable(byte_views(lines@)).unwrap()])
            },
            Option::None => first_acceptable(byte_views(lines@)) is None,
        },
{
    let marker = windows_apps_bytes();
    let suffix = python_exe_bytes();
    let mut i: usize = 0;
    while i < lines.len()
        invariant
            marker@ == windows_apps_marker(),
            suffix@ == python_exe_name(),
            i <= lines@.len(),
            forall|k: int| 0 <= k < i ==> !acceptable(byte_views(lines@)[k]),
        decreases lines@.len() - i,
    {
        let t = trim_bytes(&lines[i]);
        proof {
            assert(byte_views(lines@)[i as int] == lines@[i as int]@);
        }
        let shim = find_sub(&t, &marker);
        let named = ends_with_bytes(&t, &suffix);
        if !shim && named {
            proof {
                lemma_first_acceptable(byte_views(lines@), i as int);
            }
            return Some(t);
        }
        i = i + 1;
    }
    proof {
        lemma_first_acceptable(byte_views(lines@), lines@.len() as int);
    }
    None
}

} // verus!
