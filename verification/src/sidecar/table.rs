//! The bindings that the sidecar has seen, kept by name in name order, and
//! how each watch event changes them.

use vstd::prelude::*;
use crate::sidecar::{BindingRoute, build_nginx_conf, conf_head, conf_tail, spec_routes};
use crate::text::{lemma_seq_lt_irreflexive, lemma_seq_lt_transitive, seq_lt, spec_join, str_eq, str_lt};

verus! {

/// The names of the bindings strictly increase.
pub open spec fn names_sorted(s: Seq<BindingRoute>) -> bool {
    forall|i: int, j: int| 0 <= i < j < s.len() ==> seq_lt(#[trigger] s[i].name@, #[trigger] s[j].name@)
}

/// Is there a binding of that name?
pub open spec fn has_name(s: Seq<BindingRoute>, k: Seq<char>) -> bool {
    exists|i: int| 0 <= i < s.len() && (#[trigger] s[i]).name@ == k
}

/// A position of a binding of that name, where there is one.
pub open spec fn name_index(s: Seq<BindingRoute>, k: Seq<char>) -> int {
    choose|i: int| 0 <= i < s.len() && (#[trigger] s[i]).name@ == k
}

/// The bindings by name.
pub open spec fn bindings_map(s: Seq<BindingRoute>) -> Map<Seq<char>, BindingRoute> {
    Map::new(|k: Seq<char>| has_name(s, k), |k: Seq<char>| s[name_index(s, k)])
}

proof fn lemma_names_distinct(s: Seq<BindingRoute>, i: int, j: int)
    requires
        names_sorted(s),
        0 <= i < s.len(),
        0 <= j < s.len(),
        i != j,
    ensures
        s[i].name@ != s[j].name@,
{
    lemma_seq_lt_irreflexive(s[i].name@);
}

proof fn lemma_map_at(s: Seq<BindingRoute>, i: int)
    requires
        names_sorted(s),
        0 <= i < s.len(),
    ensures
        bindings_map(s).dom().contains(s[i].name@),
        bindings_map(s)[s[i].name@] == s[i],
{
    let k = s[i].name@;
    assert(has_name(s, k));
    let j = name_index(s, k);
    if j != i {
        lemma_names_distinct(s, i, j);
    }
    assert(bindings_map(s)[k] == s[j]);
}

/// Two sorted lists whose bindings agree by name stand for the same map.
proof fn lemma_map_eq(s: Seq<BindingRoute>, t: Seq<BindingRoute>, m: Map<Seq<char>, BindingRoute>)
    requires
        names_sorted(t),
        forall|k: Seq<char>| has_name(t, k) <==> #[trigger] m.dom().contains(k),
        forall|i: int| 0 <= i < t.len() ==> m[(#[trigger] t[i]).name@] == t[i],
    ensures
        bindings_map(t) == m,
{
    assert forall|k: Seq<char>| #[trigger] m.dom().contains(k) implies bindings_map(t)[k] == m[k] by {
        let i = name_index(t, k);
        lemma_map_at(t, i);
    }
    assert(bindings_map(t) =~= m);
}

proof fn lemma_insert_at(s: Seq<BindingRoute>, p: int, b: BindingRoute)
    requires
        names_sorted(s),
        0 <= p <= s.len(),
        forall|j: int| 0 <= j < p ==> seq_lt((#[trigger] s[j]).name@, b.name@),
        forall|j: int| p <= j < s.len() ==> seq_lt(b.name@, (#[trigger] s[j]).name@),
    ensures
        names_sorted(s.insert(p, b)),
        bindings_map(s.insert(p, b)) == bindings_map(s).insert(b.name@, b),
{
    let t = s.insert(p, b);
    assert forall|i: int, j: int| 0 <= i < j < t.len() implies seq_lt(#[trigger] t[i].name@, #[trigger] t[j].name@) by {
        if i < p && j > p {
            lemma_seq_lt_transitive(s[i].name@, b.name@, s[j - 1].name@);
        }
    }
    let m = bindings_map(s).insert(b.name@, b);
    assert forall|k: Seq<char>| has_name(t, k) <==> #[trigger] m.dom().contains(k) by {
        if has_name(t, k) {
            let i = choose|i: int| 0 <= i < t.len() && (#[trigger] t[i]).name@ == k;
            if i < p {
                assert(s[i] == t[i]);
            } else if i > p {
                assert(s[i - 1] == t[i]);
            }
        }
        if has_name(s, k) {
            let i = choose|i: int| 0 <= i < s.len() && (#[trigger] s[i]).name@ == k;
            if i < p {
                assert(t[i] == s[i]);
            } else {
                assert(t[i + 1] == s[i]);
            }
        }
        if k == b.name@ {
            assert(t[p] == b);
        }
    }
    assert forall|i: int| 0 <= i < t.len() implies m[(#[trigger] t[i]).name@] == t[i] by {
        if i < p {
            lemma_map_at(s, i);
            assert(t[i] == s[i]);
            assert(t[i].name@ != b.name@) by {
                lemma_seq_lt_irreflexive(b.name@);
            }
        } else if i > p {
            lemma_map_at(s, i - 1);
            assert(t[i] == s[i - 1]);
            assert(t[i].name@ != b.name@) by {
                lemma_seq_lt_irreflexive(b.name@);
            }
        }
    }
    lemma_map_eq(s, t, m);
}

proof fn lemma_update_at(s: Seq<BindingRoute>, p: int, b: BindingRoute)
    requires
        names_sorted(s),
        0 <= p < s.len(),
        s[p].name@ == b.name@,
    ensures
        names_sorted(s.update(p, b)),
        bindings_map(s.update(p, b)) == bindings_map(s).insert(b.name@, b),
{
    let t = s.update(p, b);
    assert forall|i: int, j: int| 0 <= i < j < t.len() implies seq_lt(#[trigger] t[i].name@, #[trigger] t[j].name@) by {
        assert(s[i].name@ == t[i].name@ && s[j].name@ == t[j].name@);
    }
    let m = bindings_map(s).insert(b.name@, b);
    assert forall|k: Seq<char>| has_name(t, k) <==> #[trigger] m.dom().contains(k) by {
        if has_name(t, k) {
            let i = choose|i: int| 0 <= i < t.len() && (#[trigger] t[i]).name@ == k;
            assert(s[i].name@ == k);
        }
        if has_name(s, k) {
            let i = choose|i: int| 0 <= i < s.len() && (#[trigger] s[i]).name@ == k;
            assert(t[i].name@ == k);
        }
        if k == b.name@ {
            assert(t[p] == b);
        }
    }
    assert forall|i: int| 0 <= i < t.len() implies m[(#[trigger] t[i]).name@] == t[i] by {
        if i != p {
            lemma_map_at(s, i);
            lemma_names_distinct(s, i, p);
        }
    }
    lemma_map_eq(s, t, m);
}

proof fn lemma_remove_at(s: Seq<BindingRoute>, p: int)
    requires
        names_sorted(s),
        0 <= p < s.len(),
    ensures
        names_sorted(s.remove(p)),
        bindings_map(s.remove(p)) == bindings_map(s).remove(s[p].name@),
{
    let t = s.remove(p);
    assert forall|i: int, j: int| 0 <= i < j < t.len() implies seq_lt(#[trigger] t[i].name@, #[trigger] t[j].name@) by {
        let i2 = if i < p { i } else { i + 1 };
        let j2 = if j < p { j } else { j + 1 };
        assert(t[i] == s[i2] && t[j] == s[j2]);
    }
    let m = bindings_map(s).remove(s[p].name@);
    assert forall|k: Seq<char>| has_name(t, k) <==> #[trigger] m.dom().contains(k) by {
        if has_name(t, k) {
            let i = choose|i: int| 0 <= i < t.len() && (#[trigger] t[i]).name@ == k;
            let i2 = if i < p { i } else { i + 1 };
            assert(t[i] == s[i2]);
            lemma_names_distinct(s, i2, p);
        }
        if m.dom().contains(k) {
            let i = choose|i: int| 0 <= i < s.len() && (#[trigger] s[i]).name@ == k;
            if i < p {
                assert(t[i] == s[i]);
            } else {
                assert(t[i - 1] == s[i]);
            }
        }
    }
    assert forall|i: int| 0 <= i < t.len() implies m[(#[trigger] t[i]).name@] == t[i] by {
        let i2 = if i < p { i } else { i + 1 };
        assert(t[i] == s[i2]);
        lemma_map_at(s, i2);
        lemma_names_distinct(s, i2, p);
    }
    lemma_map_eq(s, t, m);
}

/// The bindings that the sidecar knows, one per name, in the order of
/// their names.
pub struct BindingTable {
    bindings: Vec<BindingRoute>,
}

impl View for BindingTable {
    type V = Map<Seq<char>, BindingRoute>;

    open spec fn view(&self) -> Map<Seq<char>, BindingRoute> {
        bindings_map(self.spec_bindings())
    }
}

/// A change that the watch of the bindings reports.
pub enum BindingEvent {
    /// A binding was created or changed.
    Applied(BindingRoute),
    /// A binding was deleted.
    Deleted(BindingRoute),
    /// The watch started over, listing these bindings.
    Restarted(Vec<BindingRoute>),
}

/// The bindings by name after each of `bs` was applied in turn.
pub open spec fn spec_apply_all(m: Map<Seq<char>, BindingRoute>, bs: Seq<BindingRoute>) -> Map<Seq<char>, BindingRoute>
    decreases bs.len(),
{
    if bs.len() == 0 {
        m
    } else {
        spec_apply_all(m, bs.drop_last()).insert(bs.last().name@, bs.last())
    }
}

/// The bindings by name after an event.
pub open spec fn spec_apply(m: Map<Seq<char>, BindingRoute>, e: BindingEvent) -> Map<Seq<char>, BindingRoute> {
    match e {
        BindingEvent::Applied(b) => m.insert(b.name@, b),
        BindingEvent::Deleted(b) => m.remove(b.name@),
        BindingEvent::Restarted(bs) => spec_apply_all(m, bs@),
    }
}

impl BindingTable {
    /// The bindings, in the order of their names.
    pub closed spec fn spec_bindings(&self) -> Seq<BindingRoute> {
        self.bindings@
    }

    #[verifier::type_invariant]
    closed spec fn inv(&self) -> bool {
        names_sorted(self.bindings@)
    }

    /// A table without bindings.
    pub fn new() -> (t: BindingTable)
        ensures
            t@ == Map::<Seq<char>, BindingRoute>::empty(),
            t.spec_bindings().len() == 0,
    {
        let t = BindingTable { bindings: Vec::new() };
        assert(t@ =~= Map::<Seq<char>, BindingRoute>::empty());
        t
    }

    /// The bindings, in the order of their names; the list stands for the
    /// table.
    pub fn bindings(&self) -> (r: &Vec<BindingRoute>)
        ensures
            r@ == self.spec_bindings(),
            names_sorted(r@),
            bindings_map(r@) == self@,
    {
        proof {
            use_type_invariant(self);
        }
        &self.bindings
    }

    /// Where a binding of that name stands, or would stand: the number of
    /// bindings whose names come before it.
    fn position(&self, name: &str) -> (p: usize)
        ensures
            p <= self.spec_bindings().len(),
            forall|j: int| 0 <= j < p ==> seq_lt((#[trigger] self.spec_bindings()[j]).name@, name@),
            forall|j: int| p <= j < self.spec_bindings().len() ==> !seq_lt(
                (#[trigger] self.spec_bindings()[j]).name@,
                name@,
            ),
    {
        proof {
            use_type_invariant(self);
        }
        let mut i: usize = 0;
        while i < self.bindings.len()
            invariant
                i <= self.bindings@.len(),
                names_sorted(self.bindings@),
                forall|j: int| 0 <= j < i ==> seq_lt((#[trigger] self.bindings@[j]).name@, name@),
            decreases self.bindings@.len() - i,
        {
            if !str_lt(self.bindings[i].name.as_str(), name) {
                proof {
                    assert forall|j: int| i <= j < self.bindings@.len() implies !seq_lt(
                        (#[trigger] self.bindings@[j]).name@,
                        name@,
                    ) by {
                        if j > i && seq_lt(self.bindings@[j].name@, name@) {
                            lemma_seq_lt_transitive(self.bindings@[i as int].name@, self.bindings@[j].name@, name@);
                        }
                    }
                }
                return i;
            }
            i = i + 1;
        }
        i
    }

    /// Keeps `b` under its name, in place of any binding of that name.
    pub fn insert(&mut self, b: BindingRoute)
        ensures
            final(self)@ == old(self)@.insert(b.name@, b),
    {
        proof {
            use_type_invariant(&*self);
        }
        let ghost s = self.bindings@;
        let p = self.position(b.name.as_str());
        let mut bindings: Vec<BindingRoute> = Vec::new();
        std::mem::swap(&mut bindings, &mut self.bindings);
        if p < bindings.len() && str_eq(bindings[p].name.as_str(), b.name.as_str()) {
            proof {
                lemma_update_at(s, p as int, b);
            }
            bindings.set(p, b);
        } else {
            proof {
                assert forall|j: int| p <= j < s.len() implies seq_lt(b.name@, (#[trigger] s[j]).name@) by {
                    if j == p {
                        crate::text::lemma_seq_lt_total(s[j].name@, b.name@);
                    } else {
                        if s[j].name@ == b.name@ {
                            lemma_seq_lt_irreflexive(b.name@);
                        }
                        crate::text::lemma_seq_lt_total(s[j].name@, b.name@);
                    }
                }
                lemma_insert_at(s, p as int, b);
            }
            bindings.insert(p, b);
        }
        self.bindings = bindings;
    }

    /// Forgets the binding of that name, if there is one.
    pub fn remove(&mut self, name: &str)
        ensures
            final(self)@ == old(self)@.remove(name@),
    {
        proof {
            use_type_invariant(&*self);
        }
        let ghost s = self.bindings@;
        let p = self.position(name);
        if p < self.bindings.len() && str_eq(self.bindings[p].name.as_str(), name) {
            proof {
                lemma_remove_at(s, p as int);
            }
            let mut bindings: Vec<BindingRoute> = Vec::new();
            std::mem::swap(&mut bindings, &mut self.bindings);
            bindings.remove(p);
            self.bindings = bindings;
        } else {
            proof {
                if has_name(s, name@) {
                    let i = choose|i: int| 0 <= i < s.len() && (#[trigger] s[i]).name@ == name@;
                    lemma_seq_lt_irreflexive(name@);
                    if i > p {
                        crate::text::lemma_seq_lt_total(s[p as int].name@, name@);
                        lemma_seq_lt_transitive(name@, s[p as int].name@, s[i].name@);
                    }
                }
                assert(bindings_map(s) =~= bindings_map(s).remove(name@));
            }
        }
    }

    /// Takes in what the watch reports.
    pub fn apply(&mut self, event: BindingEvent)
        ensures
            final(self)@ == spec_apply(old(self)@, event),
    {
        match event {
            BindingEvent::Applied(b) => self.insert(b),
            BindingEvent::Deleted(b) => self.remove(b.name.as_str()),
            BindingEvent::Restarted(bs) => {
                let ghost start = self@;
                let ghost all = bs@;
                let mut bs = bs;
                let total: usize = bs.len();
                let mut done: usize = 0;
                while bs.len() > 0
                    invariant
                        total == all.len(),
                        done + bs@.len() == all.len(),
                        bs@ == all.skip(done as int),
                        self@ == spec_apply_all(start, all.take(done as int)),
                    decreases bs@.len(),
                {
                    let b = bs.remove(0);
                    proof {
                        assert(all[done as int] == b);
                        assert(all.take(done + 1).drop_last() =~= all.take(done as int));
                        assert(bs@ =~= all.skip(done + 1));
                    }
                    self.insert(b);
                    done = done + 1;
                }
                proof {
                    assert(all.take(done as int) =~= all);
                }
            },
        }
    }
}

/// What the sidecar does on each watch event: the table takes the event
/// in, and the configuration is built anew from all its bindings, in the
/// order of their names.
pub fn handle_event(table: &mut BindingTable, event: BindingEvent, default_namespace: &str) -> (conf: String)
    ensures
        final(table)@ == spec_apply(old(table)@, event),
        conf@ == conf_head() + spec_join(spec_routes(final(table).spec_bindings(), default_namespace@), "\n        "@)
            + conf_tail(),
{
    table.apply(event);
    build_nginx_conf(default_namespace, table.bindings())
}

/// Two lists of bindings in the order of their names that hold the same
/// binding under each name are the same list: what the sidecar writes
/// depends only on which binding each name has, not on the events that
/// led there.
pub proof fn lemma_sorted_bindings_unique(s: Seq<BindingRoute>, t: Seq<BindingRoute>)
    requires
        names_sorted(s),
        names_sorted(t),
        bindings_map(s) == bindings_map(t),
    ensures
        s == t,
    decreases s.len(),
{
    if s.len() == 0 || t.len() == 0 {
        if s.len() > 0 {
            lemma_map_at(s, 0);
            assert(bindings_map(t).dom().contains(s[0].name@));
        }
        if t.len() > 0 {
            lemma_map_at(t, 0);
            assert(bindings_map(s).dom().contains(t[0].name@));
        }
        assert(s =~= t);
    } else {
        let ls = s.len() - 1;
        let lt = t.len() - 1;
        lemma_map_at(s, ls);
        lemma_map_at(t, lt);
        let i = name_index(t, s[ls].name@);
        let k = name_index(s, t[lt].name@);
        assert(has_name(t, s[ls].name@));
        assert(has_name(s, t[lt].name@));
        if i < lt {
            if k < ls {
                lemma_seq_lt_transitive(s[ls].name@, t[lt].name@, s[ls].name@);
            } else {
                lemma_seq_lt_irreflexive(t[lt].name@);
            }
            lemma_seq_lt_irreflexive(s[ls].name@);
        }
        assert(s[ls].name@ == t[lt].name@);
        assert(s[ls] == t[lt]);
        lemma_remove_at(s, ls);
        lemma_remove_at(t, lt);
        assert(s.remove(ls) =~= s.drop_last());
        assert(t.remove(lt) =~= t.drop_last());
        lemma_sorted_bindings_unique(s.drop_last(), t.drop_last());
        assert(s =~= s.drop_last().push(s[ls]));
        assert(t =~= t.drop_last().push(t[lt]));
    }
}

/// Applying a binding and then deleting the binding of that name leaves
/// the table as it was, less any earlier binding of that name.
pub proof fn lemma_apply_then_delete(m: Map<Seq<char>, BindingRoute>, b: BindingRoute, d: BindingRoute)
    requires
        d.name@ == b.name@,
    ensures
        spec_apply(spec_apply(m, BindingEvent::Applied(b)), BindingEvent::Deleted(d)) == m.remove(b.name@),
{
    assert(m.insert(b.name@, b).remove(b.name@) =~= m.remove(b.name@));
}

} // verus!
