//! Evaluation counts by operation name, held as a list of (name, count) pairs
//! read as a map in which a later pair overrides an earlier one.
use vstd::prelude::*;

verus! {

/// The count recorded for operation `name` in `counts`: the last pair with that
/// name decides, and there is none where no pair has it.
pub open spec fn count_of(counts: Seq<(String, u64)>, name: Seq<char>) -> Option<u64>
    decreases counts.len(),
{
    if counts.len() == 0 {
        None
    } else if counts.last().0@ == name {
        Some(counts.last().1)
    } else {
        count_of(counts.drop_last(), name)
    }
}

/// `t` is `s` with the count of every pair named `name` set to `v`.
pub open spec fn overwritten(
    s: Seq<(String, u64)>,
    t: Seq<(String, u64)>,
    name: Seq<char>,
    v: u64,
) -> bool {
    &&& t.len() == s.len()
    &&& forall|j: int|
        0 <= j < s.len() ==> {
            &&& (#[trigger] t[j]).0@ == s[j].0@
            &&& t[j].1 == if s[j].0@ == name {
                v
            } else {
                s[j].1
            }
        }
}

proof fn lemma_count_some(s: Seq<(String, u64)>, name: Seq<char>)
    ensures
        count_of(s, name) is Some <==> exists|j: int| 0 <= j < s.len() && (#[trigger] s[j]).0@ == name,
    decreases s.len(),
{
    if s.len() > 0 {
        lemma_count_some(s.drop_last(), name);
        if count_of(s, name) is Some && s.last().0@ != name {
            let j = choose|j: int| 0 <= j < s.len() - 1 && (#[trigger] s.drop_last()[j]).0@ == name;
            assert(s[j] == s.drop_last()[j]);
        }
        if exists|j: int| 0 <= j < s.len() && (#[trigger] s[j]).0@ == name {
            let j = choose|j: int| 0 <= j < s.len() && (#[trigger] s[j]).0@ == name;
            if j < s.len() - 1 {
                assert(s.drop_last()[j] == s[j]);
            }
        }
    }
}

proof fn lemma_overwrite(s: Seq<(String, u64)>, t: Seq<(String, u64)>, name: Seq<char>, v: u64, other: Seq<char>)
    requires
        overwritten(s, t, name, v),
    ensures
        count_of(t, other) == if other == name && count_of(s, name) is Some {
            Some(v)
        } else {
            count_of(s, other)
        },
    decreases s.len(),
{
    if s.len() > 0 {
        let s0 = s.drop_last();
        let t0 = t.drop_last();
        assert(overwritten(s0, t0, name, v)) by {
            assert forall|j: int| 0 <= j < s0.len() implies (#[trigger] t0[j]).0@ == s0[j].0@ by {
                assert(t0[j] == t[j] && s0[j] == s[j]);
            }
            assert forall|j: int| 0 <= j < s0.len() implies (#[trigger] t0[j]).1 == if s0[j].0@ == name {
                v
            } else {
                s0[j].1
            } by {
                assert(t0[j] == t[j] && s0[j] == s[j]);
            }
        }
        lemma_overwrite(s0, t0, name, v, other);
        lemma_overwrite(s0, t0, name, v, name);
        assert(t.last() == t[s.len() - 1]);
    }
}

/// Sets the count of operation `name` to `v`: every pair with that name is set to
/// `v`, and a new pair is added where there is none.
pub fn set_count(counts: &mut Vec<(String, u64)>, name: &String, v: u64)
    ensures
        forall|other: Seq<char>|
            #[trigger] count_of(final(counts)@, other) == if other == name@ {
                Some(v)
            } else {
                count_of(old(counts)@, other)
            },
{
    let ghost s = counts@;
    let mut found = false;
    let mut i: usize = 0;
    while i < counts.len()
        invariant
            0 <= i <= counts@.len(),
            counts@.len() == s.len(),
            forall|j: int|
                0 <= j < i ==> {
                    &&& (#[trigger] counts@[j]).0@ == s[j].0@
                    &&& counts@[j].1 == if s[j].0@ == name@ {
                        v
                    } else {
                        s[j].1
                    }
                },
            forall|j: int| i <= j < s.len() ==> counts@[j] == s[j],
            forall|j: int| 0 <= j < i && s[j].0@ != name@ ==> counts@[j] == s[j],
            found <==> exists|j: int| 0 <= j < i && (#[trigger] s[j]).0@ == name@,
        decreases counts@.len() - i,
    {
        assert(counts@[i as int] == s[i as int]);
        if counts[i].0 == *name {
            let key = counts[i].0.clone();
            counts.set(i, (key, v));
            found = true;
            assert(s[i as int].0@ == name@);
        } else {
            assert(s[i as int].0@ != name@);
        }
        i = i + 1;
    }
    proof {
        lemma_count_some(s, name@);
    }
    if !found {
        counts.push((name.clone(), v));
    }
    proof {
        assert forall|other: Seq<char>|
            #[trigger] count_of(counts@, other) == if other == name@ {
                Some(v)
            } else {
                count_of(s, other)
            } by {
            if found {
                lemma_overwrite(s, counts@, name@, v, other);
            } else {
                assert(counts@.drop_last() =~= s);
            }
        }
    }
}

} // verus!
