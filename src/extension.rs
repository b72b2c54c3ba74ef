use vstd::prelude::*;

verus! {

/// The views of a sequence of strings.
pub open spec fn views(v: Seq<String>) -> Seq<Seq<char>> {
    v.map_values(|s: String| s@)
}

/// The extensions that every scan keeps.
pub open spec fn default_extensions() -> Seq<Seq<char>> {
    seq!["jpg"@, "png"@, "jpeg"@]
}

/// The non-empty members of `s`, in order.
pub open spec fn keep_nonempty(s: Seq<Seq<char>>) -> Seq<Seq<char>>
    decreases s.len(),
{
    if s.len() == 0 {
        Seq::empty()
    } else if s.last().len() > 0 {
        keep_nonempty(s.drop_last()).push(s.last())
    } else {
        keep_nonempty(s.drop_last())
    }
}

/// The effective extension list of a job: the defaults, then each non-empty
/// extra extension (duplicates are kept).
pub fn extension_set(extra: &Vec<String>) -> (r: Vec<String>)
    ensures
        views(r@) == default_extensions() + keep_nonempty(views(extra@)),
{
    let mut r: Vec<String> = Vec::new();
    r.push(String::from_str("jpg"));
    r.push(String::from_str("png"));
    r.push(String::from_str("jpeg"));
    proof {
        reveal_strlit("jpg");
        reveal_strlit("png");
        reveal_strlit("jpeg");
        assert(views(r@) =~= default_extensions());
    }
    let mut i: usize = 0;
    while i < extra.len()
        invariant
            i <= extra@.len(),
            views(r@) == default_extensions() + keep_nonempty(views(extra@.take(i as int))),
        decreases extra@.len() - i,
    {
        proof {
            assert(extra@.take(i + 1).drop_last() =~= extra@.take(i as int));
            assert(views(extra@.take(i + 1)).drop_last() =~= views(extra@.take(i as int)));
        }
        proof {
            assert(views(extra@.take(i + 1)).last() == extra@[i as int]@);
        }
        if !extra[i].as_str().is_empty() {
            let ghost old_r = r@;
            r.push(extra[i].clone());
            proof {
                assert(views(r@) =~= views(old_r).push(extra@[i as int]@));
                assert(keep_nonempty(views(extra@.take(i + 1))) == keep_nonempty(views(extra@.take(i as int))).push(extra@[i as int]@));
                assert(views(r@) =~= default_extensions() + keep_nonempty(views(extra@.take(i + 1))));
            }
        } else {
            assert(keep_nonempty(views(extra@.take(i + 1))) == keep_nonempty(views(extra@.take(i as int))));
        }
        i = i + 1;
    }
    proof {
        assert(extra@.take(extra@.len() as int) =~= extra@);
    }
    r
}

/// The index of the last '.' among the first `k` characters of `s`, or -1.
pub open spec fn last_dot_before(s: Seq<char>, k: int) -> int
    decreases k,
{
    if k <= 0 {
        -1
    } else if s[k - 1] == '.' {
        k - 1
    } else {
        last_dot_before(s, k - 1)
    }
}

proof fn lemma_last_dot_range(s: Seq<char>, k: int)
    requires
        0 <= k <= s.len(),
    ensures
        -1 <= last_dot_before(s, k) < k,
        last_dot_before(s, k) >= 0 ==> s[last_dot_before(s, k)] == '.',
    decreases k,
{
    if k > 0 && s[k - 1] != '.' {
        lemma_last_dot_range(s, k - 1);
    }
}

/// The extension of a file name: what follows its last '.', where that '.'
/// is not the name's first character.
pub open spec fn extension_of(name: Seq<char>) -> Option<Seq<char>> {
    let d = last_dot_before(name, name.len() as int);
    if d >= 1 {
        Some(name.subrange(d + 1, name.len() as int))
    } else {
        None
    }
}

/// `b` is `a` in ASCII lower case.
pub open spec fn lowers_to(a: char, b: char) -> bool {
    if 'A' <= a && a <= 'Z' {
        b as u32 == a as u32 + 32
    } else {
        b == a
    }
}

/// `want` is `ext` in ASCII lower case.
pub open spec fn lowered_equal(ext: Seq<char>, want: Seq<char>) -> bool {
    &&& ext.len() == want.len()
    &&& forall|i: int| 0 <= i < ext.len() ==> lowers_to(#[trigger] ext[i], want[i])
}

/// A file named `name` is kept by a scan for `exts`: its lower-cased
/// extension is one of them.
pub open spec fn wanted(name: Seq<char>, exts: Seq<Seq<char>>) -> bool {
    &&& extension_of(name) is Some
    &&& exists|j: int| 0 <= j < exts.len() && lowered_equal(extension_of(name)->0, #[trigger] exts[j])
}

fn lowers_to_exec(a: char, b: char) -> (r: bool)
    ensures
        r == lowers_to(a, b),
{
    if 'A' <= a && a <= 'Z' {
        b as u32 == a as u32 + 32
    } else {
        b == a
    }
}

/// Compares the characters of `name` from `start` on with `want`.
fn tail_lowered_equal(name: &str, start: usize, want: &str) -> (r: bool)
    requires
        start <= name@.len(),
    ensures
        r == lowered_equal(name@.subrange(start as int, name@.len() as int), want@),
{
    let n = name.unicode_len();
    let w = want.unicode_len();
    let ghost ext = name@.subrange(start as int, name@.len() as int);
    if n - start != w {
        return false;
    }
    let mut i: usize = 0;
    while i < w
        invariant
            n == name@.len(),
            w == want@.len(),
            start <= n,
            n - start == w,
            ext == name@.subrange(start as int, n as int),
            i <= w,
            forall|k: int| 0 <= k < i ==> lowers_to(#[trigger] ext[k], want@[k]),
        decreases w - i,
    {
        let a = name.get_char(start + i);
        let b = want.get_char(i);
        if !lowers_to_exec(a, b) {
            assert(!lowers_to(ext[i as int], want@[i as int]));
            return false;
        }
        i = i + 1;
    }
    true
}

/// Finds the last '.' of `name`.
fn last_dot(name: &str) -> (r: Option<usize>)
    ensures
        name@.len() <= usize::MAX,
        match r {
            Some(d) => d as int == last_dot_before(name@, name@.len() as int),
            None => last_dot_before(name@, name@.len() as int) == -1,
        },
{
    let n = name.unicode_len();
    let mut k: usize = n;
    while k > 0
        invariant
            n == name@.len(),
            k <= n,
            last_dot_before(name@, n as int) == last_dot_before(name@, k as int),
        decreases k,
    {
        if name.get_char(k - 1) == '.' {
            return Some(k - 1);
        }
        k = k - 1;
    }
    None
}

/// Whether a scan for `exts` keeps a file named `name`.
pub fn has_wanted_extension(name: &str, exts: &Vec<String>) -> (r: bool)
    ensures
        r == wanted(name@, views(exts@)),
{
    let d = match last_dot(name) {
        Some(d) => d,
        None => return false,
    };
    if d == 0 {
        return false;
    }
    proof {
        lemma_last_dot_range(name@, name@.len() as int);
    }
    let ghost ext = name@.subrange(d + 1, name@.len() as int);
    assert(extension_of(name@) == Some(ext));
    let mut j: usize = 0;
    while j < exts.len()
        invariant
            j <= exts@.len(),
            ext == name@.subrange(d + 1, name@.len() as int),
            d < name@.len(),
            name@.len() <= usize::MAX,
            extension_of(name@) == Some(ext),
            forall|k: int| 0 <= k < j ==> !lowered_equal(ext, #[trigger] views(exts@)[k]),
        decreases exts@.len() - j,
    {
        if tail_lowered_equal(name, d + 1, exts[j].as_str()) {
            assert(lowered_equal(ext, views(exts@)[j as int]));
            assert(lowered_equal(extension_of(name@)->0, views(exts@)[j as int]));
            return true;
        }
        j = j + 1;
    }
    false
}

} // verus!
