//! Labels, label deltas, and applying a sequence of deltas to an issue's labels.
use vstd::prelude::*;

verus! {

/// A label, identified by its name.
#[derive(Clone, Debug)]
pub struct Label {
    pub name: String,
}

/// One requested change to an issue's labels.
#[derive(Clone, Debug)]
pub enum LabelDelta {
    Add(Label),
    Remove(Label),
}

impl LabelDelta {
    /// The label this delta adds or removes.
    pub fn label(&self) -> (r: &Label)
        ensures
            r.name@ == delta_name(*self),
    {
        match self {
            LabelDelta::Add(l) => l,
            LabelDelta::Remove(l) => l,
        }
    }
}

/// The names of a list of labels, in order.
pub open spec fn label_names(ls: Seq<Label>) -> Seq<Seq<char>> {
    ls.map_values(|l: Label| l.name@)
}

/// The name of the label a delta is about.
pub open spec fn delta_name(d: LabelDelta) -> Seq<char> {
    match d {
        LabelDelta::Add(l) => l.name@,
        LabelDelta::Remove(l) => l.name@,
    }
}

/// One delta applied to a list of names: an add appends a name that is not
/// there yet, a remove takes out the first occurrence of a name that is.
pub open spec fn apply_delta(s: Seq<Seq<char>>, d: LabelDelta) -> Seq<Seq<char>> {
    match d {
        LabelDelta::Add(l) => if s.contains(l.name@) {
            s
        } else {
            s.push(l.name@)
        },
        LabelDelta::Remove(l) => s.remove_value(l.name@),
    }
}

/// Whether applying the delta to `s` changes it.
pub open spec fn delta_changes(s: Seq<Seq<char>>, d: LabelDelta) -> bool {
    match d {
        LabelDelta::Add(l) => !s.contains(l.name@),
        LabelDelta::Remove(l) => s.contains(l.name@),
    }
}

/// The deltas applied to `s` one after another, in order.
pub open spec fn apply_deltas(s: Seq<Seq<char>>, ds: Seq<LabelDelta>) -> Seq<Seq<char>>
    decreases ds.len(),
{
    if ds.len() == 0 {
        s
    } else {
        apply_delta(apply_deltas(s, ds.drop_last()), ds.last())
    }
}

/// Whether some delta, applied in its turn, changes the running list.
pub open spec fn deltas_change(s: Seq<Seq<char>>, ds: Seq<LabelDelta>) -> bool
    decreases ds.len(),
{
    if ds.len() == 0 {
        false
    } else {
        deltas_change(s, ds.drop_last()) || delta_changes(apply_deltas(s, ds.drop_last()), ds.last())
    }
}

/// Index of the first label named `name`, if any.
fn position_of(labels: &Vec<Label>, name: &String) -> (r: Option<usize>)
    ensures
        match r {
            Some(i) => {
                &&& i < labels@.len()
                &&& labels@[i as int].name@ == name@
                &&& forall|j: int| 0 <= j < i ==> labels@[j].name@ != name@
            },
            None => !label_names(labels@).contains(name@),
        },
{
    let mut i: usize = 0;
    while i < labels.len()
        invariant
            i <= labels@.len(),
            forall|j: int| 0 <= j < i ==> labels@[j].name@ != name@,
        decreases labels@.len() - i,
    {
        if labels[i].name == *name {
            return Some(i);
        }
        i = i + 1;
    }
    assert(!label_names(labels@).contains(name@)) by {
        if label_names(labels@).contains(name@) {
            let k = choose|k: int| 0 <= k < labels@.len() && label_names(labels@)[k] == name@;
            assert(labels@[k].name@ == name@);
        }
    }
    None
}

/// Applies one delta to `labels`; returns whether they changed.
pub fn apply_label_delta(labels: &mut Vec<Label>, delta: &LabelDelta) -> (changed: bool)
    ensures
        label_names(final(labels)@) == apply_delta(label_names(old(labels)@), *delta),
        changed == delta_changes(label_names(old(labels)@), *delta),
{
    let ghost names = label_names(labels@);
    let name = &delta.label().name;
    match position_of(labels, name) {
        Some(pos) => {
            assert(names.contains(name@)) by {
                assert(names[pos as int] == name@);
            }
            match delta {
                LabelDelta::Add(_) => false,
                LabelDelta::Remove(_) => {
                    proof {
                        names.index_of_first_ensures(name@);
                        let k = names.index_of_first(name@).unwrap();
                        if k < pos {
                            assert(labels@[k].name@ == name@);
                        }
                        if pos < k {
                            assert(names[pos as int] == name@);
                        }
                    }
                    labels.remove(pos);
                    assert(label_names(labels@) =~= names.remove(pos as int));
                    true
                },
            }
        },
        None => match delta {
            LabelDelta::Add(_) => {
                labels.push(Label { name: name.clone() });
                assert(label_names(labels@) =~= names.push(name@));
                true
            },
            LabelDelta::Remove(_) => {
                proof {
                    names.index_of_first_ensures(name@);
                }
                false
            },
        },
    }
}

/// Applies the deltas to `labels` in order, later deltas acting on what the
/// earlier ones left; returns whether any of them changed the labels.
pub fn resolve(labels: &mut Vec<Label>, deltas: &Vec<LabelDelta>) -> (changed: bool)
    ensures
        label_names(final(labels)@) == apply_deltas(label_names(old(labels)@), deltas@),
        changed == deltas_change(label_names(old(labels)@), deltas@),
{
    let ghost start = label_names(labels@);
    let mut changed = false;
    let mut i: usize = 0;
    while i < deltas.len()
        invariant
            i <= deltas@.len(),
            start == label_names(old(labels)@),
            label_names(labels@) == apply_deltas(start, deltas@.subrange(0, i as int)),
            changed == deltas_change(start, deltas@.subrange(0, i as int)),
        decreases deltas@.len() - i,
    {
        let c = apply_label_delta(labels, &deltas[i]);
        proof {
            let next = deltas@.subrange(0, i + 1);
            assert(next.drop_last() =~= deltas@.subrange(0, i as int));
            assert(next.last() == deltas@[i as int]);
        }
        changed = changed || c;
        i = i + 1;
    }
    assert(deltas@.subrange(0, deltas@.len() as int) =~= deltas@);
    changed
}

/// Every add in `ds` names a label already in `s`, and every remove names
/// one that is not.
pub open spec fn already_applied(s: Seq<Seq<char>>, ds: Seq<LabelDelta>) -> bool {
    forall|k: int|
        0 <= k < ds.len() ==> match #[trigger] ds[k] {
            LabelDelta::Add(l) => s.contains(l.name@),
            LabelDelta::Remove(l) => !s.contains(l.name@),
        }
}

/// No label is both added and removed by `ds`.
pub open spec fn no_conflicts(ds: Seq<LabelDelta>) -> bool {
    forall|i: int, j: int|
        0 <= i < ds.len() && 0 <= j < ds.len() && delta_name(#[trigger] ds[i]) == delta_name(
            #[trigger] ds[j],
        ) ==> (ds[i] is Add <==> ds[j] is Add)
}

proof fn lemma_remove_value(s: Seq<Seq<char>>, n: Seq<char>)
    requires
        s.no_duplicates(),
    ensures
        s.remove_value(n).no_duplicates(),
        forall|x: Seq<char>| #[trigger]
            s.remove_value(n).contains(x) <==> (s.contains(x) && x != n),
{
    s.index_of_first_ensures(n);
    match s.index_of_first(n) {
        None => {},
        Some(i) => {
            let r = s.remove(i);
            assert(r == s.remove_value(n));
            assert forall|x: Seq<char>| r.contains(x) <==> (s.contains(x) && x != n) by {
                if r.contains(x) {
                    let j = choose|j: int| 0 <= j < r.len() && r[j] == x;
                    if j < i {
                        assert(s[j] == x);
                    } else {
                        assert(s[j + 1] == x);
                    }
                }
                if s.contains(x) && x != n {
                    let j = choose|j: int| 0 <= j < s.len() && s[j] == x;
                    if j < i {
                        assert(r[j] == x);
                    } else {
                        assert(r[j - 1] == x);
                    }
                }
            }
            assert forall|a: int, b: int| 0 <= a < r.len() && 0 <= b < r.len() && a != b implies r[a]
                != r[b] by {
                let sa = if a < i { a } else { a + 1 };
                let sb = if b < i { b } else { b + 1 };
                assert(r[a] == s[sa]);
                assert(r[b] == s[sb]);
            }
        },
    }
}

/// Resolving deltas against labels with distinct names leaves the names distinct.
pub proof fn lemma_resolve_keeps_names_unique(s: Seq<Seq<char>>, ds: Seq<LabelDelta>)
    requires
        s.no_duplicates(),
    ensures
        apply_deltas(s, ds).no_duplicates(),
    decreases ds.len(),
{
    if ds.len() > 0 {
        lemma_resolve_keeps_names_unique(s, ds.drop_last());
        let prev = apply_deltas(s, ds.drop_last());
        match ds.last() {
            LabelDelta::Add(l) => {
                if !prev.contains(l.name@) {
                    let r = prev.push(l.name@);
                    assert forall|a: int, b: int| 0 <= a < r.len() && 0 <= b < r.len() && a != b implies r[a]
                        != r[b] by {
                        if a < prev.len() && b < prev.len() {
                            assert(r[a] == prev[a] && r[b] == prev[b]);
                        } else if a < prev.len() {
                            assert(r[a] == prev[a]);
                        } else if b < prev.len() {
                            assert(r[b] == prev[b]);
                        }
                    }
                }
            },
            LabelDelta::Remove(l) => {
                lemma_remove_value(prev, l.name@);
            },
        }
    }
}

/// Deltas that are already in effect change nothing: the labels stay as
/// they are and no change is reported, so no update is sent.
pub proof fn lemma_no_spurious_change(s: Seq<Seq<char>>, ds: Seq<LabelDelta>)
    requires
        already_applied(s, ds),
    ensures
        apply_deltas(s, ds) == s,
        !deltas_change(s, ds),
    decreases ds.len(),
{
    if ds.len() > 0 {
        let front = ds.drop_last();
        assert forall|k: int| 0 <= k < front.len() implies match #[trigger] front[k] {
            LabelDelta::Add(l) => s.contains(l.name@),
            LabelDelta::Remove(l) => !s.contains(l.name@),
        } by {
            assert(front[k] == ds[k]);
        }
        lemma_no_spurious_change(s, front);
        assert(ds[ds.len() - 1] == ds.last());
        s.index_of_first_ensures(delta_name(ds.last()));
    }
}

/// After the deltas have been applied to duplicate-free names, the result is
/// still free of duplicates and every delta of a conflict-free list is in
/// effect.
pub proof fn lemma_deltas_in_effect(s: Seq<Seq<char>>, ds: Seq<LabelDelta>)
    requires
        s.no_duplicates(),
        no_conflicts(ds),
    ensures
        apply_deltas(s, ds).no_duplicates(),
        already_applied(apply_deltas(s, ds), ds),
    decreases ds.len(),
{
    if ds.len() > 0 {
        let front = ds.drop_last();
        let last = ds.last();
        let n = delta_name(last);
        assert forall|i: int, j: int|
            0 <= i < front.len() && 0 <= j < front.len() && delta_name(#[trigger] front[i])
                == delta_name(#[trigger] front[j]) implies (front[i] is Add <==> front[j] is Add) by {
            assert(front[i] == ds[i]);
            assert(front[j] == ds[j]);
        }
        lemma_deltas_in_effect(s, front);
        let prev = apply_deltas(s, front);
        let r = apply_deltas(s, ds);
        assert(r == apply_delta(prev, last));
        match last {
            LabelDelta::Add(l) => {
                if !prev.contains(n) {
                    assert forall|x: Seq<char>| prev.contains(x) implies r.contains(x) by {
                        let j = choose|j: int| 0 <= j < prev.len() && prev[j] == x;
                        assert(r[j] == x);
                    }
                    assert forall|x: Seq<char>| r.contains(x) && x != n implies prev.contains(x) by {
                        let j = choose|j: int| 0 <= j < r.len() && r[j] == x;
                        assert(prev[j] == x);
                    }
                    assert(r[prev.len() as int] == n);
                }
            },
            LabelDelta::Remove(l) => {
                lemma_remove_value(prev, n);
            },
        }
        assert forall|k: int| 0 <= k < ds.len() implies match #[trigger] ds[k] {
            LabelDelta::Add(l) => r.contains(l.name@),
            LabelDelta::Remove(l) => !r.contains(l.name@),
        } by {
            assert(ds[ds.len() - 1] == last);
            if k < ds.len() - 1 {
                assert(front[k] == ds[k]);
                if delta_name(ds[k]) == n {
                    assert(ds[k] is Add <==> last is Add);
                }
            }
        }
    }
}

/// Applying the same conflict-free deltas a second time to duplicate-free
/// labels leaves the result of the first application as it is and reports no
/// change.
pub proof fn lemma_resolve_idempotent(s: Seq<Seq<char>>, ds: Seq<LabelDelta>)
    requires
        s.no_duplicates(),
        no_conflicts(ds),
    ensures
        apply_deltas(apply_deltas(s, ds), ds) == apply_deltas(s, ds),
        !deltas_change(apply_deltas(s, ds), ds),
{
    lemma_deltas_in_effect(s, ds);
    lemma_no_spurious_change(apply_deltas(s, ds), ds);
}

} // verus!
