//! Planning the rename pass over a freshly instantiated topic directory.
//!
//! After the template contents have been copied, every immediate entry of
//! the topic directory whose name contains the placeholder token is renamed:
//! each occurrence of the token is replaced by the topic name. The pass does
//! not descend into subdirectories. Renaming onto a name that is already
//! present in the directory is a fatal collision.

use vstd::prelude::*;

use crate::token::contains_pat;
use crate::token::contains_token;
use crate::token::placeholder;
use crate::token::replace_all;
use crate::token::replace_token;

verus! {

/// The final name of one entry after the rename pass: a name containing the
/// placeholder has every occurrence replaced by the topic name; any other
/// name is left untouched.
pub open spec fn rename_of(name: Seq<char>, topic: Seq<char>) -> Seq<char> {
    if contains_pat(name, placeholder()) {
        replace_all(name, placeholder(), topic)
    } else {
        name
    }
}

/// The outcome of the rename pass, processing `todo` in directory order
/// after the entries `done` (already processed, under their final names).
/// An entry whose new name differs from its old one and is already borne by
/// another entry of the directory at that moment stops the pass with the
/// colliding target name.
pub open spec fn pass_result(
    done: Seq<Seq<char>>,
    todo: Seq<Seq<char>>,
    topic: Seq<char>,
) -> Result<Seq<Seq<char>>, Seq<char>>
    decreases todo.len(),
{
    if todo.len() == 0 {
        Ok(done)
    } else {
        let new = rename_of(todo[0], topic);
        if new != todo[0] && (done.contains(new) || todo.drop_first().contains(new)) {
            Err(new)
        } else {
            pass_result(done.push(new), todo.drop_first(), topic)
        }
    }
}

/// The renames the pass performs, as (old name, new name) pairs in directory
/// order; entries whose name does not change are not renamed at all.
pub open spec fn rename_pairs(entries: Seq<Seq<char>>, topic: Seq<char>) -> Seq<
    (Seq<char>, Seq<char>),
>
    decreases entries.len(),
{
    if entries.len() == 0 {
        Seq::empty()
    } else {
        let new = rename_of(entries[0], topic);
        let head: Seq<(Seq<char>, Seq<char>)> = if new != entries[0] {
            seq![(entries[0], new)]
        } else {
            Seq::empty()
        };
        head + rename_pairs(entries.drop_first(), topic)
    }
}

/// A successful pass keeps the entry count and maps each entry to its final
/// name: every entry whose original name contains the placeholder ends up
/// with every occurrence replaced by the topic name, and every other entry
/// keeps its name unchanged.
pub proof fn lemma_pass_names(
    done: Seq<Seq<char>>,
    todo: Seq<Seq<char>>,
    topic: Seq<char>,
    r: Seq<Seq<char>>,
)
    requires
        pass_result(done, todo, topic) == Ok::<Seq<Seq<char>>, Seq<char>>(r),
    ensures
        r.len() == done.len() + todo.len(),
        forall|i: int| 0 <= i < done.len() ==> r[i] == done[i],
        forall|i: int|
            0 <= i < todo.len() ==> r[done.len() + i] == rename_of(todo[i], topic),
    decreases todo.len(),
{
    if todo.len() > 0 {
        let new = rename_of(todo[0], topic);
        lemma_pass_names(done.push(new), todo.drop_first(), topic, r);
        assert forall|i: int| 0 <= i < todo.len() implies r[done.len() + i] == rename_of(
            todo[i],
            topic,
        ) by {
            if i > 0 {
                assert(todo.drop_first()[i - 1] == todo[i]);
            }
        }
    }
}

/// The law of the rename pass: when the pass succeeds on the entries of a
/// topic directory, the resulting listing is index-for-index the original
/// one with the placeholder substituted — entries containing the token carry
/// every occurrence replaced by the topic name, and entries without the
/// token are byte-identical to what they were.
pub proof fn lemma_rename_pass_spec(entries: Seq<Seq<char>>, topic: Seq<char>, r: Seq<Seq<char>>)
    requires
        pass_result(Seq::empty(), entries, topic) == Ok::<Seq<Seq<char>>, Seq<char>>(r),
    ensures
        r.len() == entries.len(),
        forall|i: int|
            0 <= i < entries.len() && contains_pat(entries[i], placeholder()) ==> r[i]
                == replace_all(entries[i], placeholder(), topic),
        forall|i: int|
            0 <= i < entries.len() && !contains_pat(entries[i], placeholder()) ==> r[i]
                == entries[i],
{
    lemma_pass_names(Seq::empty(), entries, topic, r);
}

/// True iff some entry of `v` with index in `lo..hi` reads `s`.
fn range_contains(v: &Vec<String>, lo: usize, hi: usize, s: &String) -> (r: bool)
    requires
        lo <= hi <= v.len(),
    ensures
        r == exists|i: int| lo <= i < hi && v.deep_view()[i] == s@,
{
    let mut k: usize = lo;
    while k < hi
        invariant
            lo <= k <= hi <= v.len(),
            forall|i: int| lo <= i < k ==> v.deep_view()[i] != s@,
        decreases hi - k,
    {
        if v[k].eq(s) {
            assert(v.deep_view()[k as int] == s@);
            return true;
        }
        assert(v.deep_view()[k as int] == v@[k as int]@);
        k += 1;
    }
    false
}

/// Plan the rename pass over the immediate entries of a topic directory.
/// On success, returns the expected listing after the pass together with the
/// (old name, new name) renames to perform, in directory order; on a
/// collision, returns the target name that was already taken.
pub fn plan_renames(entries: &Vec<String>, topic: &str) -> (r: Result<
    (Vec<String>, Vec<(String, String)>),
    String,
>)
    ensures
        match r {
            Ok(p) => {
                &&& pass_result(Seq::empty(), entries.deep_view(), topic@) == Ok::<
                    Seq<Seq<char>>,
                    Seq<char>,
                >(p.0.deep_view())
                &&& p.1.deep_view() == rename_pairs(entries.deep_view(), topic@)
            },
            Err(e) => pass_result(Seq::empty(), entries.deep_view(), topic@) == Err::<
                Seq<Seq<char>>,
                Seq<char>,
            >(e@),
        },
{
    let ghost full = entries.deep_view();
    let ghost t = topic@;
    let mut names: Vec<String> = Vec::new();
    let mut pairs: Vec<(String, String)> = Vec::new();
    let mut k: usize = 0;
    proof {
        assert(full.skip(0) =~= full);
        assert(names.deep_view() =~= Seq::<Seq<char>>::empty());
        assert(pairs.deep_view() =~= Seq::<(Seq<char>, Seq<char>)>::empty());
        assert(pairs.deep_view() + rename_pairs(full, t) =~= rename_pairs(full, t));
    }
    while k < entries.len()
        invariant
            0 <= k <= entries.len(),
            full == entries.deep_view(),
            t == topic@,
            names.len() == k,
            pass_result(Seq::empty(), full, t) == pass_result(names.deep_view(), full.skip(
                k as int,
            ), t),
            pairs.deep_view() + rename_pairs(full.skip(k as int), t) == rename_pairs(full, t),
        decreases entries.len() - k,
    {
        let ghost todo = full.skip(k as int);
        let ghost done = names.deep_view();
        let ghost prev_pairs = pairs.deep_view();
        proof {
            assert(entries.deep_view()[k as int] == entries@[k as int]@);
            assert(todo[0] == full[k as int]);
            assert(todo.drop_first() =~= full.skip(k as int + 1));
        }
        let name: &String = &entries[k];
        let new: String = if contains_token(name.as_str()) {
            replace_token(name.as_str(), topic)
        } else {
            name.clone()
        };
        assert(new@ == rename_of(todo[0], t));
        let changed = !new.eq(name);
        if changed {
            let in_done = range_contains(&names, 0, names.len(), &new);
            let hi = entries.len();
            let in_todo = range_contains(entries, k + 1, hi, &new);
            proof {
                assert(done.contains(new@) == (exists|i: int|
                    0 <= i < names.len() && names.deep_view()[i] == new@));
                assert forall|i: int| k + 1 <= i < full.len() && full[i] == new@ implies
                    todo.drop_first().contains(new@) by {
                    assert(todo.drop_first()[i - (k + 1)] == full[i]);
                }
                if todo.drop_first().contains(new@) {
                    let j = choose|j: int|
                        0 <= j < todo.drop_first().len() && todo.drop_first()[j] == new@;
                    assert(full[j + k + 1] == new@);
                }
            }
            if in_done || in_todo {
                assert(pass_result(done, todo, t) == Err::<Seq<Seq<char>>, Seq<char>>(new@));
                return Err(new);
            }
            pairs.push((name.clone(), new.clone()));
            proof {
                assert(rename_pairs(todo, t) == seq![(todo[0], new@)] + rename_pairs(
                    todo.drop_first(),
                    t,
                ));
                assert(pairs.deep_view() =~= prev_pairs.push((todo[0], new@)));
                assert(pairs.deep_view() + rename_pairs(full.skip(k as int + 1), t)
                    =~= prev_pairs + rename_pairs(todo, t));
            }
        } else {
            proof {
                assert(rename_pairs(todo, t) == rename_pairs(todo.drop_first(), t));
            }
        }
        names.push(new);
        proof {
            assert(names.deep_view() =~= done.push(rename_of(todo[0], t)));
            assert(pass_result(done, todo, t) == pass_result(names.deep_view(), full.skip(
                k as int + 1,
            ), t));
        }
        k += 1;
    }
    proof {
        assert(full.skip(full.len() as int) =~= Seq::<Seq<char>>::empty());
        assert(pairs.deep_view() + Seq::<(Seq<char>, Seq<char>)>::empty() =~= pairs.deep_view());
    }
    Ok((names, pairs))
}

} // verus!
