//! The values that the storage provider and its clients exchange: the
//! capacity of a storage, and the channels and sessions of tasks.

use vstd::prelude::*;

verus! {

/// The size of a storage and how much of it is used, in bytes.
#[derive(Copy, Clone, Debug, PartialEq, Eq, Structural)]
pub struct Capacity {
    pub capacity: u64,
    pub usage: u64,
}

/// The bytes that are left: the capacity less the usage, or nothing where
/// the usage exceeds the capacity.
pub open spec fn spec_available(c: Capacity) -> u64 {
    if c.usage <= c.capacity {
        (c.capacity - c.usage) as u64
    } else {
        0
    }
}

/// A sum of byte counts that stops at the largest count.
pub open spec fn saturating_add(a: u64, b: u64) -> u64 {
    if a + b <= u64::MAX {
        (a + b) as u64
    } else {
        u64::MAX
    }
}

/// The capacities of several storages together: each field summed, and
/// held at the largest count where the sum would exceed it.
pub open spec fn spec_sum(s: Seq<Capacity>) -> Capacity
    decreases s.len(),
{
    if s.len() == 0 {
        Capacity { capacity: 0, usage: 0 }
    } else {
        let rest = spec_sum(s.drop_last());
        Capacity {
            capacity: saturating_add(rest.capacity, s.last().capacity),
            usage: saturating_add(rest.usage, s.last().usage),
        }
    }
}

impl Capacity {
    /// An empty storage.
    pub fn zero() -> (c: Capacity)
        ensures
            c.capacity == 0 && c.usage == 0,
    {
        Capacity { capacity: 0, usage: 0 }
    }

    /// The bytes that are left.
    pub fn available(&self) -> (r: u64)
        ensures
            r == spec_available(*self),
    {
        if self.usage <= self.capacity {
            self.capacity - self.usage
        } else {
            0
        }
    }

    /// This capacity, bounded above by `limit`; the usage is kept.
    pub fn limit_on(self, limit: u64) -> (r: Capacity)
        ensures
            r.capacity == (if self.capacity <= limit { self.capacity } else { limit }),
            r.usage == self.usage,
    {
        Capacity {
            capacity: if self.capacity <= limit { self.capacity } else { limit },
            usage: self.usage,
        }
    }

    /// The sum of the capacities in `parts`, field by field, each held at
    /// the largest count: the exact totals, capped.
    pub fn sum(parts: &Vec<Capacity>) -> (r: Capacity)
        ensures
            r == spec_sum(parts@),
            r.capacity == capped(capacity_total(parts@)),
            r.usage == capped(usage_total(parts@)),
    {
        let mut acc = Capacity { capacity: 0, usage: 0 };
        let mut i: usize = 0;
        while i < parts.len()
            invariant
                i <= parts@.len(),
                acc == spec_sum(parts@.take(i as int)),
            decreases parts@.len() - i,
        {
            let p = parts[i];
            proof {
                assert(parts@.take(i + 1).drop_last() == parts@.take(i as int));
            }
            acc = Capacity {
                capacity: acc.capacity.saturating_add(p.capacity),
                usage: acc.usage.saturating_add(p.usage),
            };
            i = i + 1;
        }
        proof {
            assert(parts@.take(parts@.len() as int) == parts@);
            lemma_sum_is_capped_total(parts@);
        }
        acc
    }
}

/// The capacity that a bucket offers: where its own quota and usage are
/// known, that quota bounded by the capacity of the whole storage; else
/// the capacity of the whole storage.
pub fn bucket_capacity(global: Capacity, bucket: Option<Capacity>) -> (r: Capacity)
    ensures
        bucket is None ==> r == global,
        bucket matches Some(b) ==> r.usage == b.usage && r.capacity == (if b.capacity
            <= global.capacity { b.capacity } else { global.capacity }),
{
    match bucket {
        Some(b) => b.limit_on(global.capacity),
        None => global,
    }
}

/// The capacity of a bucket, known only where both its quota and its
/// usage are.
pub fn bucket_quota_and_usage(quota: Option<u64>, usage: Option<u64>) -> (r: Option<Capacity>)
    ensures
        r is Some <==> quota is Some && usage is Some,
        r matches Some(c) ==> Some(c.capacity) == quota && Some(c.usage) == usage,
{
    match (quota, usage) {
        (Some(capacity), Some(usage)) => Some(Capacity { capacity, usage }),
        _ => None,
    }
}

/// A bounded bucket never offers more than the whole storage, nor more
/// than its own quota.
pub proof fn lemma_bucket_capacity_bounded(global: Capacity, b: Capacity)
    ensures
        ({
            let c = if b.capacity <= global.capacity { b.capacity } else { global.capacity };
            let r = Capacity { capacity: c, usage: b.usage };
            spec_available(r) <= spec_available(b) && r.capacity <= global.capacity
        }),
{
}

/// Summing never loses bytes below the largest count: each part is at
/// most the sum.
pub proof fn lemma_sum_bounds_parts(s: Seq<Capacity>, i: int)
    requires
        0 <= i < s.len(),
    ensures
        s[i].capacity <= spec_sum(s).capacity,
        s[i].usage <= spec_sum(s).usage,
    decreases s.len(),
{
    if i < s.len() - 1 {
        lemma_sum_bounds_parts(s.drop_last(), i);
    }
}

/// The exact total capacity of several storages.
pub open spec fn capacity_total(s: Seq<Capacity>) -> nat
    decreases s.len(),
{
    if s.len() == 0 {
        0
    } else {
        capacity_total(s.drop_last()) + s.last().capacity as nat
    }
}

/// The exact total usage of several storages.
pub open spec fn usage_total(s: Seq<Capacity>) -> nat
    decreases s.len(),
{
    if s.len() == 0 {
        0
    } else {
        usage_total(s.drop_last()) + s.last().usage as nat
    }
}

/// A count held at the largest count.
pub open spec fn capped(n: nat) -> u64 {
    if n <= u64::MAX {
        n as u64
    } else {
        u64::MAX
    }
}

/// The sum of capacities is the exact total of each field, held at the
/// largest count; the sum of none is zero.
pub proof fn lemma_sum_is_capped_total(s: Seq<Capacity>)
    ensures
        spec_sum(s) == (Capacity { capacity: capped(capacity_total(s)), usage: capped(usage_total(s)) }),
    decreases s.len(),
{
    if s.len() > 0 {
        lemma_sum_is_capped_total(s.drop_last());
    }
}

proof fn lemma_total_remove(s: Seq<Capacity>, j: int)
    requires
        0 <= j < s.len(),
    ensures
        capacity_total(s) == capacity_total(s.remove(j)) + s[j].capacity,
        usage_total(s) == usage_total(s.remove(j)) + s[j].usage,
    decreases s.len(),
{
    if j == s.len() - 1 {
        assert(s.remove(j) =~= s.drop_last());
    } else {
        lemma_total_remove(s.drop_last(), j);
        assert(s.remove(j).drop_last() =~= s.drop_last().remove(j));
        assert(s.remove(j).last() == s.last());
    }
}

proof fn lemma_totals_of_permutation(s: Seq<Capacity>, t: Seq<Capacity>)
    requires
        s.to_multiset() == t.to_multiset(),
    ensures
        capacity_total(s) == capacity_total(t),
        usage_total(s) == usage_total(t),
    decreases s.len(),
{
    broadcast use vstd::seq_lib::group_to_multiset_ensures;

    if s.len() == 0 {
        assert(t.to_multiset().len() == 0);
        assert(t.len() == 0);
    } else {
        let x = s.last();
        let rest = s.drop_last();
        assert(s =~= rest.push(x));
        assert(s.to_multiset() == rest.to_multiset().insert(x));
        assert(t.to_multiset().count(x) > 0);
        assert(t.contains(x));
        let j = choose|j: int| 0 <= j < t.len() && t[j] == x;
        assert(t.remove(j).to_multiset() == t.to_multiset().remove(x));
        assert(rest.to_multiset().insert(x).remove(x) =~= rest.to_multiset());
        lemma_totals_of_permutation(rest, t.remove(j));
        lemma_total_remove(t, j);
    }
}

/// The sum of capacities does not depend on their order.
pub proof fn lemma_sum_order_independent(s: Seq<Capacity>, t: Seq<Capacity>)
    requires
        s.to_multiset() == t.to_multiset(),
    ensures
        spec_sum(s) == spec_sum(t),
{
    lemma_totals_of_permutation(s, t);
    lemma_sum_is_capped_total(s);
    lemma_sum_is_capped_total(t);
}

/// A channel through which a task is run, and the session it belongs to.
#[derive(Debug)]
pub struct TaskChannel {
    pub metadata: SessionContextMetadata,
    pub actor: TaskChannelKind,
}

/// The kinds of task channel.
#[derive(Debug)]
pub enum TaskChannelKind {
    Job(TaskChannelKindJob),
}

/// A task run as jobs made from templates.
#[derive(Debug)]
pub struct TaskChannelKindJob {
    pub container: Option<String>,
    pub templates: Vec<TemplateRef>,
}

/// The name of a job template.
#[derive(Debug)]
pub struct TemplateRef {
    pub name: String,
}

/// A request to run a task with a value.
#[derive(Debug)]
pub struct Payload<Value> {
    pub task_name: String,
    pub namespace: Option<String>,
    pub value: Value,
}

/// A session in which a specification is run.
#[derive(Debug)]
pub struct SessionContext<Spec> {
    pub metadata: SessionContextMetadata,
    pub spec: Spec,
}

/// The name and the namespace of a session.
#[derive(Debug)]
pub struct SessionContextMetadata {
    pub name: String,
    pub namespace: String,
}

impl SessionContextMetadata {
    /// A copy of the metadata.
    pub fn duplicate(&self) -> (r: SessionContextMetadata)
        ensures
            r == *self,
    {
        SessionContextMetadata { name: self.name.clone(), namespace: self.namespace.clone() }
    }
}

/// The pattern of a path of names.
pub const NAME_RE: &'static str = r"^/([a-z_-][a-z0-9_-]*[a-z0-9]?/)*$";

/// The pattern of one name.
pub const NAME_RE_CHILD: &'static str = r"^[a-z_-][a-z0-9_-]*[a-z0-9]?$";

/// The pattern of a path of names that ends in a value.
pub const NAME_RE_SET: &'static str = r"^(/[1-9]?[0-9]+|/[a-z_-][a-z0-9_-]*[a-z0-9]?)*/([A-Za-z0-9._-]*)$";

} // verus!
