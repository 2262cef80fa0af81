//! The placeholder token and its substitution in entry names.
//!
//! Template entry names may contain the literal placeholder `[topicname]`;
//! at instantiation time every occurrence of the placeholder in a name is
//! replaced by the real topic name. The replacement is leftmost-first and
//! does not rescan the replacement text.

use vstd::prelude::*;

verus! {

/// The literal placeholder that template entry names may contain.
pub open spec fn placeholder() -> Seq<char> {
    "[topicname]"@
}

/// Executable form of the placeholder token.
pub fn placeholder_str() -> (r: &'static str)
    ensures
        r@ == placeholder(),
{
    "[topicname]"
}

/// The placeholder is eleven characters long.
pub proof fn lemma_placeholder_len()
    ensures
        placeholder().len() == 11,
{
    reveal_strlit("[topicname]");
}

/// The pattern `pat` occurs in `s` at position `i`.
pub open spec fn matches_at(s: Seq<char>, pat: Seq<char>, i: int) -> bool {
    &&& 0 <= i
    &&& i + pat.len() <= s.len()
    &&& s.subrange(i, i + pat.len()) == pat
}

/// The pattern `pat` occurs somewhere in `s`.
pub open spec fn contains_pat(s: Seq<char>, pat: Seq<char>) -> bool {
    exists|i: int| matches_at(s, pat, i)
}

/// `s` with every occurrence of `pat` replaced by `rep`, scanning left to
/// right; replacement text is not rescanned. A name too short to hold the
/// pattern is returned unchanged.
pub open spec fn replace_all(s: Seq<char>, pat: Seq<char>, rep: Seq<char>) -> Seq<char>
    decreases s.len(),
{
    if pat.len() == 0 || s.len() < pat.len() {
        s
    } else if s.subrange(0, pat.len() as int) == pat {
        rep + replace_all(s.skip(pat.len() as int), pat, rep)
    } else {
        seq![s[0]] + replace_all(s.skip(1), pat, rep)
    }
}

/// A name in which the pattern never occurs is left unchanged by the
/// replacement.
pub proof fn lemma_replace_absent(s: Seq<char>, pat: Seq<char>, rep: Seq<char>)
    requires
        pat.len() > 0,
        !contains_pat(s, pat),
    ensures
        replace_all(s, pat, rep) == s,
    decreases s.len(),
{
    if s.len() < pat.len() {
    } else {
        assert(!matches_at(s, pat, 0));
        assert(s.subrange(0, pat.len() as int) != pat);
        assert forall|i: int| !matches_at(s.skip(1), pat, i) by {
            if matches_at(s.skip(1), pat, i) {
                assert(s.subrange(i + 1, i + 1 + pat.len()) =~= s.skip(1).subrange(
                    i,
                    i + pat.len(),
                ));
                assert(matches_at(s, pat, i + 1));
            }
        }
        lemma_replace_absent(s.skip(1), pat, rep);
        assert(replace_all(s, pat, rep) =~= s);
    }
}

/// True iff the placeholder occurs at position `i` of `name`.
fn token_at(name: &str, i: usize) -> (r: bool)
    requires
        i + placeholder().len() <= name@.len(),
        name@.len() <= usize::MAX,
    ensures
        r == matches_at(name@, placeholder(), i as int),
{
    let tok = placeholder_str();
    proof {
        lemma_placeholder_len();
    }
    let mut j: usize = 0;
    while j < 11
        invariant
            0 <= j <= 11,
            i + 11 <= name@.len(),
            name@.len() <= usize::MAX,
            tok@ == placeholder(),
            placeholder().len() == 11,
            forall|k: int| 0 <= k < j ==> name@[i + k] == placeholder()[k],
        decreases 11 - j,
    {
        if name.get_char(i + j) != tok.get_char(j) {
            assert(name@[i + j] != placeholder()[j as int]);
            assert(!matches_at(name@, placeholder(), i as int)) by {
                if name@.subrange(i as int, i + 11) == placeholder() {
                    assert(name@.subrange(i as int, i + 11)[j as int] == name@[i + j]);
                }
            }
            return false;
        }
        j += 1;
    }
    assert(name@.subrange(i as int, i + 11) =~= placeholder());
    true
}

/// True iff `name` contains the placeholder token as a substring.
pub fn contains_token(name: &str) -> (r: bool)
    ensures
        r == contains_pat(name@, placeholder()),
{
    proof {
        lemma_placeholder_len();
    }
    let len = name.unicode_len();
    let mut i: usize = 0;
    while i <= len && len - i >= 11
        invariant
            0 <= i <= len,
            len == name@.len(),
            placeholder().len() == 11,
            forall|k: int| 0 <= k < i ==> !matches_at(name@, placeholder(), k),
        decreases len - i,
    {
        if token_at(name, i) {
            return true;
        }
        i += 1;
    }
    assert forall|k: int| !matches_at(name@, placeholder(), k) by {
        if matches_at(name@, placeholder(), k) {
            assert(k + 11 <= len);
            assert(k < i);
        }
    }
    false
}

/// `name` with every occurrence of the placeholder replaced by `topic`,
/// scanning left to right.
pub fn replace_token(name: &str, topic: &str) -> (r: String)
    ensures
        r@ == replace_all(name@, placeholder(), topic@),
{
    proof {
        lemma_placeholder_len();
    }
    let ghost pat = placeholder();
    let ghost rep = topic@;
    let len = name.unicode_len();
    let mut out = String::new();
    let mut i: usize = 0;
    proof {
        assert(name@.skip(0) =~= name@);
        assert(out@ + replace_all(name@, pat, rep) =~= replace_all(name@, pat, rep));
    }
    while i < len
        invariant
            0 <= i <= len,
            len == name@.len(),
            pat == placeholder(),
            rep == topic@,
            pat.len() == 11,
            out@ + replace_all(name@.skip(i as int), pat, rep) == replace_all(name@, pat, rep),
        decreases len - i,
    {
        let ghost rest = name@.skip(i as int);
        let ghost prev = out@;
        if len - i >= 11 && token_at(name, i) {
            proof {
                assert(rest.subrange(0, 11) =~= name@.subrange(i as int, i + 11));
                assert(rest.subrange(0, 11) == pat);
                assert(replace_all(rest, pat, rep) == rep + replace_all(rest.skip(11), pat, rep));
            }
            out.append(topic);
            i += 11;
            proof {
                assert(name@.skip(i as int) =~= rest.skip(11));
                assert(out@ + replace_all(name@.skip(i as int), pat, rep) =~= prev + replace_all(
                    rest,
                    pat,
                    rep,
                ));
            }
        } else {
            proof {
                if rest.len() >= 11 {
                    assert(rest.subrange(0, 11) =~= name@.subrange(i as int, i + 11));
                    assert(rest.subrange(0, 11) != pat);
                    assert(replace_all(rest, pat, rep) == seq![rest[0]] + replace_all(
                        rest.skip(1),
                        pat,
                        rep,
                    ));
                } else {
                    assert(replace_all(rest, pat, rep) == rest);
                    assert(replace_all(rest.skip(1), pat, rep) == rest.skip(1));
                    assert(rest =~= seq![rest[0]] + rest.skip(1));
                }
            }
            out.append(name.substring_char(i, i + 1));
            i += 1;
            proof {
                assert(name@.subrange(i - 1, i as int) =~= seq![rest[0]]);
                assert(name@.skip(i as int) =~= rest.skip(1));
                assert(out@ + replace_all(name@.skip(i as int), pat, rep) =~= prev + replace_all(
                    rest,
                    pat,
                    rep,
                ));
            }
        }
    }
    proof {
        assert(name@.skip(len as int) =~= Seq::<char>::empty());
        assert(out@ + Seq::<char>::empty() =~= out@);
    }
    out
}

} // verus!
