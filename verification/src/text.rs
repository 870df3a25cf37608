//! Text replacement: all non-overlapping occurrences of a pattern replaced,
//! scanning left to right.

use vstd::prelude::*;
use vstd::string::StrSliceExecFns;

verus! {

/// `s` with every non-overlapping occurrence of `pat` replaced by `sub`,
/// scanning left to right. An empty pattern matches before every character
/// and at the end, as the standard library's `str::replace` has it.
pub open spec fn replace_all(s: Seq<char>, pat: Seq<char>, sub: Seq<char>) -> Seq<char>
    decreases s.len(),
{
    if pat.len() == 0 {
        if s.len() == 0 {
            sub
        } else {
            sub + seq![s[0]] + replace_all(s.drop_first(), pat, sub)
        }
    } else if s.len() < pat.len() {
        s
    } else if s.take(pat.len() as int) == pat {
        sub + replace_all(s.skip(pat.len() as int), pat, sub)
    } else {
        seq![s[0]] + replace_all(s.drop_first(), pat, sub)
    }
}

/// Whether `pat` occurs in `s` at position `at`.
fn matches_at(s: &Vec<char>, pat: &Vec<char>, at: usize) -> (b: bool)
    requires
        at <= s@.len(),
    ensures
        b == (at + pat@.len() <= s@.len() && s@.subrange(
            at as int,
            at + pat@.len(),
        ) == pat@),
{
    if pat.len() > s.len() - at {
        return false;
    }
    let mut j: usize = 0;
    while j < pat.len()
        invariant
            0 <= j <= pat@.len(),
            at + pat@.len() <= s@.len(),
            s@.len() <= usize::MAX,
            forall|k: int| 0 <= k < j ==> s@[at + k] == pat@[k],
        decreases pat@.len() - j,
    {
        if s[at + j] != pat[j] {
            assert(s@.subrange(at as int, at + pat@.len())[j as int] != pat@[j as int]);
            return false;
        }
        j += 1;
    }
    assert(s@.subrange(at as int, at + pat@.len()) =~= pat@);
    true
}

/// Pushes all of `sub` onto `out`.
fn push_all(out: &mut Vec<char>, sub: &Vec<char>)
    ensures
        final(out)@ == old(out)@ + sub@,
{
    let mut j: usize = 0;
    while j < sub.len()
        invariant
            0 <= j <= sub@.len(),
            out@ == old(out)@ + sub@.take(j as int),
        decreases sub@.len() - j,
    {
        out.push(sub[j]);
        assert(sub@.take(j + 1) =~= sub@.take(j as int) + seq![sub@[j as int]]);
        j += 1;
    }
    assert(sub@.take(sub@.len() as int) =~= sub@);
}

/// The characters of a string slice, in order.
pub fn chars_vec(s: &str) -> (r: Vec<char>)
    ensures
        r@ == s@,
{
    let n = s.unicode_len();
    let mut r: Vec<char> = Vec::new();
    let mut i: usize = 0;
    while i < n
        invariant
            0 <= i <= n,
            n == s@.len(),
            r@ == s@.take(i as int),
        decreases n - i,
    {
        let c = s.get_char(i);
        r.push(c);
        proof {
            assert(s@.take(i + 1) =~= s@.take(i as int) + seq![s@[i as int]]);
        }
        i += 1;
    }
    proof {
        assert(s@.take(n as int) =~= s@);
    }
    r
}

/// Relies on `String`'s `FromIterator<char>` through `Iterator::collect`:
/// collecting characters yields the string of exactly those characters, in
/// order.
#[verifier::external_body]
pub(crate) fn string_from_chars(v: &Vec<char>) -> (r: String)
    ensures
        r@ == v@,
{
    v.iter().collect()
}

/// `s` with every non-overlapping occurrence of `pat` replaced by `sub`.
pub fn replace_text(s: &str, pat: &str, sub: &str) -> (r: String)
    ensures
        r@ == replace_all(s@, pat@, sub@),
{
    let sc = chars_vec(s);
    let pc = chars_vec(pat);
    let bc = chars_vec(sub);
    let rc = replace_chars(&sc, &pc, &bc);
    string_from_chars(&rc)
}

/// `s` with every non-overlapping occurrence of `pat` replaced by `sub`,
/// over character vectors.
pub fn replace_chars(s: &Vec<char>, pat: &Vec<char>, sub: &Vec<char>) -> (r: Vec<char>)
    ensures
        r@ == replace_all(s@, pat@, sub@),
{
    let mut out: Vec<char> = Vec::new();
    let mut i: usize = 0;
    proof {
        assert(s@.skip(0) =~= s@);
        assert(out@ + replace_all(s@, pat@, sub@) =~= replace_all(s@, pat@, sub@));
    }
    while i < s.len()
        invariant
            0 <= i <= s@.len(),
            out@ + replace_all(s@.skip(i as int), pat@, sub@) == replace_all(s@, pat@, sub@),
        decreases s@.len() - i,
    {
        let ghost rest = s@.skip(i as int);
        assert(rest.len() == s@.len() - i);
        assert(rest[0] == s@[i as int]);
        if pat.len() == 0 {
            push_all(&mut out, sub);
            out.push(s[i]);
            proof {
                assert(rest.drop_first() =~= s@.skip(i + 1));
                assert(replace_all(rest, pat@, sub@) == sub@ + seq![s@[i as int]] + replace_all(
                    s@.skip(i + 1),
                    pat@,
                    sub@,
                ));
                assert(out@ + replace_all(s@.skip(i + 1), pat@, sub@) =~= replace_all(
                    s@,
                    pat@,
                    sub@,
                ));
            }
            i += 1;
        } else if matches_at(s, pat, i) {
            push_all(&mut out, sub);
            proof {
                assert(rest.take(pat@.len() as int) =~= s@.subrange(i as int, i + pat@.len()));
                assert(rest.skip(pat@.len() as int) =~= s@.skip(i + pat@.len()));
                assert(replace_all(rest, pat@, sub@) == sub@ + replace_all(
                    s@.skip(i + pat@.len()),
                    pat@,
                    sub@,
                ));
                assert(out@ + replace_all(s@.skip(i + pat@.len()), pat@, sub@) =~= replace_all(
                    s@,
                    pat@,
                    sub@,
                ));
            }
            i += pat.len();
        } else {
            out.push(s[i]);
            proof {
                assert(rest.drop_first() =~= s@.skip(i + 1));
                if i + pat@.len() <= s@.len() {
                    assert(rest.take(pat@.len() as int) =~= s@.subrange(i as int, i + pat@.len()));
                    assert(rest.take(pat@.len() as int) != pat@);
                }
                assert(replace_all(rest, pat@, sub@) == seq![s@[i as int]] + replace_all(
                    s@.skip(i + 1),
                    pat@,
                    sub@,
                ));
                assert(out@ + replace_all(s@.skip(i + 1), pat@, sub@) =~= replace_all(
                    s@,
                    pat@,
                    sub@,
                ));
            }
            i += 1;
        }
    }
    proof {
        assert(s@.skip(s@.len() as int) =~= Seq::<char>::empty());
    }
    if pat.len() == 0 {
        push_all(&mut out, sub);
        proof {
            assert(out@ =~= replace_all(s@, pat@, sub@));
        }
    } else {
        proof {
            assert(out@ =~= replace_all(s@, pat@, sub@));
        }
    }
    out
}

} // verus!
