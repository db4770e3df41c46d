use vstd::prelude::*;

use crate::result::ParamError;
use crate::strutil::str_eq;

verus! {

/// A request's raw parameters: each key with every value it appeared with,
/// keys unique, in order of first appearance. This is the untyped
/// string-multimap every request builder reads from.
pub struct ParamMap {
    entries: Vec<(String, Vec<String>)>,
}

/// Whether the model sequence holds an entry for the key.
pub open spec fn model_contains(s: Seq<(Seq<char>, Seq<Seq<char>>)>, key: Seq<char>) -> bool {
    exists|i: int| 0 <= i < s.len() && (#[trigger] s[i].0) == key
}

/// The index of the key's entry; meaningful only when the key is present
/// and keys are unique.
pub open spec fn model_key_index(s: Seq<(Seq<char>, Seq<Seq<char>>)>, key: Seq<char>) -> int {
    choose|i: int| 0 <= i < s.len() && (#[trigger] s[i].0) == key
}

/// Keys are pairwise distinct and every key holds at least one value.
pub open spec fn model_wf(s: Seq<(Seq<char>, Seq<Seq<char>>)>) -> bool {
    &&& forall|i: int, j: int|
        0 <= i < j < s.len() ==> (#[trigger] s[i].0) != (#[trigger] s[j].0)
    &&& forall|i: int| 0 <= i < s.len() ==> (#[trigger] s[i].1).len() >= 1
}

/// One more value recorded under the key: appended to the key's entry when
/// the key is present, else a new entry at the end.
pub open spec fn model_append(
    s: Seq<(Seq<char>, Seq<Seq<char>>)>,
    key: Seq<char>,
    value: Seq<char>,
) -> Seq<(Seq<char>, Seq<Seq<char>>)> {
    if model_contains(s, key) {
        let i = model_key_index(s, key);
        s.update(i, (key, s[i].1.push(value)))
    } else {
        s.push((key, seq![value]))
    }
}

/// Whether the key appeared with more than one value: ambiguous input.
pub open spec fn model_ambiguous(s: Seq<(Seq<char>, Seq<Seq<char>>)>, key: Seq<char>) -> bool {
    model_contains(s, key) && s[model_key_index(s, key)].1.len() > 1
}

/// The single value of the key when it appeared exactly once, nothing
/// when it never appeared; meaningless when the key is ambiguous.
pub open spec fn model_one_value(s: Seq<(Seq<char>, Seq<Seq<char>>)>, key: Seq<char>) -> Option<
    Seq<char>,
> {
    if model_contains(s, key) && s[model_key_index(s, key)].1.len() == 1 {
        Some(s[model_key_index(s, key)].1[0])
    } else {
        None
    }
}

/// The whole multimap built up from a flat pair list, in order.
pub open spec fn model_group(ps: Seq<(Seq<char>, Seq<char>)>) -> Seq<(Seq<char>, Seq<Seq<char>>)>
    decreases ps.len(),
{
    if ps.len() == 0 {
        Seq::empty()
    } else {
        model_append(model_group(ps.drop_last()), ps.last().0, ps.last().1)
    }
}

/// The model of one raw entry list: key views paired with value views.
spec fn entries_view(s: Seq<(String, Vec<String>)>) -> Seq<(Seq<char>, Seq<Seq<char>>)> {
    Seq::new(s.len(), |i: int| (s[i].0@, s[i].1.deep_view()))
}

proof fn lemma_key_index_agrees(s: Seq<(Seq<char>, Seq<Seq<char>>)>, key: Seq<char>, i: int)
    requires
        model_wf(s),
        0 <= i < s.len(),
        s[i].0 == key,
    ensures
        model_contains(s, key),
        model_key_index(s, key) == i,
{
    assert(model_contains(s, key));
    let j = model_key_index(s, key);
    if i < j {
        assert(s[i].0 != s[j].0);
    } else if j < i {
        assert(s[j].0 != s[i].0);
    }
}

impl View for ParamMap {
    type V = Seq<(Seq<char>, Seq<Seq<char>>)>;

    closed spec fn view(&self) -> Seq<(Seq<char>, Seq<Seq<char>>)> {
        entries_view(self.entries@)
    }
}

impl ParamMap {
    pub open spec fn wf(self) -> bool {
        model_wf(self@)
    }

    pub open spec fn spec_contains_key(self, key: Seq<char>) -> bool {
        model_contains(self@, key)
    }

    /// Every value the key appeared with, in order of appearance.
    pub open spec fn spec_values(self, key: Seq<char>) -> Seq<Seq<char>> {
        self@[model_key_index(self@, key)].1
    }

    pub fn new() -> (m: ParamMap)
        ensures
            m.wf(),
            m@ == Seq::<(Seq<char>, Seq<Seq<char>>)>::empty(),
    {
        let m = ParamMap { entries: Vec::new() };
        proof {
            assert(m@ =~= Seq::<(Seq<char>, Seq<Seq<char>>)>::empty());
        }
        m
    }

    /// Record one more value under the key.
    pub fn append(&mut self, key: &str, value: &str)
        requires
            old(self).wf(),
        ensures
            final(self).wf(),
            final(self)@ == model_append(old(self)@, key@, value@),
    {
        let ghost m0 = self@;
        let ghost e0 = self.entries@;
        let ghost value_model = value@;
        let mut i: usize = 0;
        let n: usize = self.entries.len();
        while i < n
            invariant
                n == self.entries.len(),
                0 <= i <= n,
                self@ == m0,
                m0 == old(self)@,
                self.entries@ == e0,
                value@ == value_model,
                model_wf(m0),
                forall|j: int| 0 <= j < i ==> (#[trigger] m0[j].0) != key@,
            decreases n - i,
        {
            if str_eq(self.entries[i].0.as_str(), key) {
                proof {
                    assert(m0[i as int] == ((e0[i as int].0@, e0[i as int].1.deep_view())));
                    assert(m0[i as int].0 == key@);
                    lemma_key_index_agrees(m0, key@, i as int);
                }
                let (name, mut values) = self.entries.remove(i);
                let owned = value.to_owned();
                let ghost gvalue: String = owned;
                values.push(owned);
                let ghost gname = name@;
                let ghost gvals = values.deep_view();
                proof {
                    assert(gname == key@);
                    let old_vals = e0[i as int].1;
                    assert(values@ == old_vals@.push(gvalue));
                    assert(m0[i as int].1 == old_vals.deep_view());
                    let target = m0[i as int].1.push(value_model);
                    assert(m0[i as int].1.len() == old_vals@.len());
                    assert(gvals.len() == values@.len());
                    assert(gvals.len() == target.len());
                    assert forall|k: int| 0 <= k < gvals.len() implies gvals[k] == target[k] by {
                        assert(gvals[k] == values@[k]@);
                        if k < gvals.len() - 1 {
                            assert(values@[k] == old_vals@[k]);
                            assert(old_vals.deep_view()[k] == old_vals@[k]@);
                        } else {
                            assert(values@[k] == gvalue);
                        }
                    }
                    assert(gvals =~= m0[i as int].1.push(value_model));
                }
                self.entries.insert(i, (name, values));
                proof {
                    let updated = m0.update(i as int, (key@, m0[i as int].1.push(value_model)));
                    let e1 = self.entries@;
                    assert(e1 == e0.remove(i as int).insert(i as int, e1[i as int]));
                    assert(e1[i as int].0@ == key@);
                    assert(e1[i as int].1.deep_view() == gvals);
                    assert(self@.len() == updated.len());
                    assert forall|a: int| 0 <= a < updated.len() implies self@[a] == updated[a] by {
                        assert(self@[a] == ((e1[a].0@, e1[a].1.deep_view())));
                        if a != i as int {
                            assert(m0[a] == ((e0[a].0@, e0[a].1.deep_view())));
                            assert(e1[a] == e0[a]);
                        }
                    }
                    assert(self@ =~= updated);
                    assert(model_append(m0, key@, value_model) == updated);
                    assert forall|a: int, b: int| 0 <= a < b < updated.len() implies (
                    #[trigger] updated[a].0) != (#[trigger] updated[b].0) by {
                        assert(updated[a].0 == m0[a].0);
                        assert(updated[b].0 == m0[b].0);
                    }
                    assert forall|a: int| 0 <= a < updated.len() implies (
                    #[trigger] updated[a].1).len() >= 1 by {
                        if a != i as int {
                            assert(updated[a].1 == m0[a].1);
                        }
                    }
                }
                return;
            }
            i += 1;
        }
        proof {
            assert(!model_contains(m0, key@));
        }
        let mut values: Vec<String> = Vec::new();
        values.push(value.to_owned());
        self.entries.push((key.to_owned(), values));
        proof {
            assert(values.deep_view() =~= seq![value_model]);
            assert(self@ =~~= m0.push((key@, seq![value_model])));
        }
    }

    /// How many distinct keys are recorded.
    pub fn key_count(&self) -> (n: usize)
        ensures
            n == self@.len(),
    {
        self.entries.len()
    }
}

/// At most one value for the key: the single value when the key appeared
/// exactly once, nothing when it never appeared, and an error naming the
/// key when it appeared more than once — ambiguous input is never resolved
/// by silently taking the first value.
pub fn multimap_get_maybe_one(params: &ParamMap, key: &str) -> (r: Result<
    Option<String>,
    ParamError,
>)
    requires
        params.wf(),
    ensures
        match r {
            Ok(o) => match o {
                Some(v) => params.spec_contains_key(key@) && params.spec_values(key@).len() == 1
                    && v@ == params.spec_values(key@)[0],
                None => !params.spec_contains_key(key@),
            },
            Err(e) => params.spec_contains_key(key@) && params.spec_values(key@).len() > 1 && (
            e matches ParamError::MultipleValues(k) && k@ == key@),
        },
{
    let n: usize = params.entries.len();
    let mut i: usize = 0;
    while i < n
        invariant
            n == params.entries.len(),
            0 <= i <= n,
            params.wf(),
            forall|j: int| 0 <= j < i ==> (#[trigger] params@[j].0) != key@,
        decreases n - i,
    {
        if str_eq(params.entries[i].0.as_str(), key) {
            proof {
                assert(params@[i as int].0 == key@);
                lemma_key_index_agrees(params@, key@, i as int);
            }
            if params.entries[i].1.len() == 1 {
                let v = params.entries[i].1[0].clone();
                proof {
                    assert(v@ == params@[i as int].1[0]);
                }
                return Ok(Some(v));
            } else {
                return Err(ParamError::MultipleValues(key.to_owned()));
            }
        }
        i += 1;
    }
    Ok(None)
}

/// Views of a flat list of key/value pairs.
pub open spec fn pair_views(v: Seq<(String, String)>) -> Seq<(Seq<char>, Seq<char>)> {
    v.map_values(|p: (String, String)| (p.0@, p.1@))
}

/// Group a flat pair list, as a form-encoded body yields it, into the
/// multimap the request builders read.
pub fn group_pairs(pairs: &Vec<(String, String)>) -> (m: ParamMap)
    ensures
        m.wf(),
        m@ == model_group(pair_views(pairs@)),
{
    let mut m = ParamMap::new();
    let mut i: usize = 0;
    while i < pairs.len()
        invariant
            0 <= i <= pairs.len(),
            m.wf(),
            m@ == model_group(pair_views(pairs@).take(i as int)),
        decreases pairs.len() - i,
    {
        proof {
            let pv = pair_views(pairs@);
            assert(pv.take(i as int + 1).drop_last() =~= pv.take(i as int));
            assert(pv.take(i as int + 1).last() == pv[i as int]);
        }
        m.append(pairs[i].0.as_str(), pairs[i].1.as_str());
        i += 1;
    }
    proof {
        assert(pair_views(pairs@).take(pairs@.len() as int) =~= pair_views(pairs@));
    }
    m
}

} // verus!
