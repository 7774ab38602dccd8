use vstd::prelude::*;

use crate::error::{Cause, Error};

verus! {

/// The message of the error for a path that does not exist.
pub open spec fn missing_path_message(path: Seq<char>) -> Seq<char> {
    "Path ["@ + path + "] does not exist"@
}

/// Whether `r` is the error for the missing path `path`.
pub open spec fn is_missing_path_error(r: Error, path: Seq<char>) -> bool {
    r.cause == Cause::NotFound && r.message@ == missing_path_message(path)
}

/// The permission bits that `make_executable` gives a file: `rwxr-xr-x`.
pub const EXECUTABLE_MODE: u32 = 0o755;

/// Whether a file mode has any of its three execute bits set.
pub fn mode_is_executable(mode: u32) -> (r: bool)
    ensures
        r == (mode & 0o111 != 0),
{
    mode & 0o111 != 0
}

/// `s` with every match of `pat` replaced by `to`, matches taken from the left and not
/// overlapping. An empty pattern matches before each character and at the end.
pub open spec fn replaced(s: Seq<char>, pat: Seq<char>, to: Seq<char>) -> Seq<char>
    decreases s.len(),
{
    if pat.len() == 0 {
        if s.len() == 0 {
            to
        } else {
            to + seq![s[0]] + replaced(s.skip(1), pat, to)
        }
    } else if s.len() < pat.len() {
        s
    } else if s.take(pat.len() as int) == pat {
        to + replaced(s.skip(pat.len() as int), pat, to)
    } else {
        seq![s[0]] + replaced(s.skip(1), pat, to)
    }
}

/// The characters of a text, one by one.
fn chars_of(s: &str) -> (r: Vec<char>)
    ensures
        r@ == s@,
{
    let n = s.unicode_len();
    let mut r: Vec<char> = Vec::new();
    let mut i: usize = 0;
    while i < n
        invariant
            n == s@.len(),
            i <= n,
            r@ == s@.take(i as int),
        decreases n - i,
    {
        r.push(s.get_char(i));
        i = i + 1;
        assert(r@ =~= s@.take(i as int));
    }
    assert(r@ =~= s@);
    r
}

/// Whether `pat` stands in `s` at position `i`.
fn matches_at(s: &Vec<char>, i: usize, pat: &Vec<char>) -> (r: bool)
    requires
        i + pat@.len() <= s@.len(),
    ensures
        r == (s@.subrange(i as int, i + pat@.len()) == pat@),
{
    let n = s.len();
    let mut k: usize = 0;
    while k < pat.len()
        invariant
            n == s@.len(),
            i + pat@.len() <= s@.len(),
            k <= pat@.len(),
            forall|j: int| 0 <= j < k ==> s@[i + j] == pat@[j],
        decreases pat@.len() - k,
    {
        if s[i + k] != pat[k] {
            assert(s@.subrange(i as int, i + pat@.len())[k as int] != pat@[k as int]);
            return false;
        }
        k = k + 1;
    }
    assert(s@.subrange(i as int, i + pat@.len()) =~= pat@);
    true
}

/// `data` with every match of `pattern` replaced by `to`, matches taken from the left and
/// not overlapping; an empty pattern matches before each character and at the end.
pub fn replace_text(data: &str, pattern: &str, to: &str) -> (r: String)
    ensures
        r@ == replaced(data@, pattern@, to@),
{
    let s = chars_of(data);
    let pat = chars_of(pattern);
    let n = s.len();
    let plen = pat.len();
    let mut out = String::new();
    let mut i: usize = 0;
    assert(s@.skip(0) =~= s@);
    assert(out@ + replaced(s@.skip(0), pat@, to@) =~= replaced(s@, pat@, to@));
    if plen == 0 {
        while i < n
            invariant
                n == s@.len(),
                s@ == data@,
                pat@ == pattern@,
                pat@.len() == 0,
                i <= n,
                out@ + replaced(s@.skip(i as int), pat@, to@) == replaced(s@, pat@, to@),
            decreases n - i,
        {
            let c = data.substring_char(i, i + 1);
            assert(s@.skip(i as int).skip(1) =~= s@.skip(i + 1));
            assert(c@ =~= seq![s@.skip(i as int)[0]]);
            out.append(to);
            out.append(c);
            i = i + 1;
        }
        assert(s@.skip(i as int) =~= Seq::<char>::empty());
        out.append(to);
        return out;
    }
    while i < n && plen <= n - i
        invariant
            n == s@.len(),
            s@ == data@,
            pat@ == pattern@,
            plen == pat@.len(),
            plen > 0,
            i <= n,
            out@ + replaced(s@.skip(i as int), pat@, to@) == replaced(s@, pat@, to@),
        decreases n - i,
    {
        let ghost rest = s@.skip(i as int);
        if matches_at(&s, i, &pat) {
            assert(rest.take(plen as int) =~= s@.subrange(i as int, i + plen));
            assert(rest.skip(plen as int) =~= s@.skip(i + plen));
            out.append(to);
            i = i + plen;
        } else {
            assert(rest.take(plen as int) =~= s@.subrange(i as int, i + plen));
            assert(rest.skip(1) =~= s@.skip(i + 1));
            let c = data.substring_char(i, i + 1);
            assert(c@ =~= seq![rest[0]]);
            out.append(c);
            i = i + 1;
        }
    }
    let tail = data.substring_char(i, n);
    assert(tail@ =~= s@.skip(i as int));
    out.append(tail);
    out
}

/// Relies on std::path::Path::exists: whether the path leads to something on disk now.
#[verifier::external_body]
fn path_exists(path: &str) -> bool {
    std::path::Path::new(path).exists()
}

/// The outcome of checking that `path` exists, given whether it does: nothing when it
/// does, a `NotFound` error naming the path when it does not.
pub fn existence_result(path: &str, exists: bool) -> (r: Result<(), Error>)
    ensures
        exists <==> r is Ok,
        r matches Err(e) ==> is_missing_path_error(e, path@),
{
    if exists {
        Ok(())
    } else {
        let mut msg = String::from_str("Path [");
        msg.append(path);
        msg.append("] does not exist");
        Err(Error::new(Cause::NotFound, msg.as_str()))
    }
}

/// Checks that `path` exists, and fails with a `NotFound` error naming it where it does not.
pub fn ensure_exists(path: &str) -> (r: Result<(), Error>)
    ensures
        r matches Err(e) ==> is_missing_path_error(e, path@),
{
    let exists = path_exists(path);
    existence_result(path, exists)
}

} // verus!
