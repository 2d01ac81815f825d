use vstd::prelude::*;
use crate::api::model_storage_binding::{
    ModelStorageBindingSyncPolicy, ModelStorageBindingSyncPolicyPull, ModelStorageBindingSyncPolicyPush,
};
use crate::text::str_eq;

verus! {

/// A step of syncing the bucket of a model from its source storage.
#[derive(Copy, Clone, Debug, PartialEq, Eq, Structural)]
pub enum SyncStep {
    /// Replicate the source bucket into the target, continuously.
    PullAlways,
    /// Copy the source bucket into the target once, with a job.
    PullOnCreate,
    /// Replicate the target bucket back into the source, continuously.
    PushAlways,
}

/// The steps of syncing a bucket: none without a source; else the pull
/// step of the policy, if any, then its push step, if any.
pub open spec fn spec_sync_steps(source: Option<ModelStorageBindingSyncPolicy>) -> Seq<SyncStep> {
    match source {
        None => Seq::empty(),
        Some(p) => {
            let pull = match p.pull {
                ModelStorageBindingSyncPolicyPull::Always => seq![SyncStep::PullAlways],
                ModelStorageBindingSyncPolicyPull::OnCreate => seq![SyncStep::PullOnCreate],
                ModelStorageBindingSyncPolicyPull::Never => Seq::empty(),
            };
            let push = match p.push {
                ModelStorageBindingSyncPolicyPush::Always => seq![SyncStep::PushAlways],
                _ => Seq::empty(),
            };
            pull + push
        },
    }
}

/// The steps of syncing a bucket under the sync policy of its source.
pub fn sync_steps(source: Option<ModelStorageBindingSyncPolicy>) -> (r: Vec<SyncStep>)
    ensures
        r@ == spec_sync_steps(source),
{
    let mut r: Vec<SyncStep> = Vec::new();
    match source {
        None => {},
        Some(p) => {
            match p.pull {
                ModelStorageBindingSyncPolicyPull::Always => r.push(SyncStep::PullAlways),
                ModelStorageBindingSyncPolicyPull::OnCreate => r.push(SyncStep::PullOnCreate),
                ModelStorageBindingSyncPolicyPull::Never => {},
            }
            match p.push {
                ModelStorageBindingSyncPolicyPush::Always => r.push(SyncStep::PushAlways),
                _ => {},
            }
        },
    }
    proof {
        assert(r@ =~= spec_sync_steps(source));
    }
    r
}

/// A step of unsyncing the bucket of a model.
#[derive(Copy, Clone, Debug, PartialEq, Eq, Structural)]
pub enum UnsyncStep {
    /// Stop replicating the source into the target; the bucket may then be
    /// deleted.
    UnsyncPullAlways,
    /// Stop replicating the target back into the source; the bucket may
    /// then be deleted.
    UnsyncPushAlways,
    /// Push the bucket back to the source with a job, which deletes it in
    /// turn; the bucket must not be deleted here.
    PushOnDelete,
}

/// The steps of unsyncing a bucket: none without a source; else the pull
/// step of the policy, if any, then its push step, if any.
pub open spec fn spec_unsync_steps(source: Option<ModelStorageBindingSyncPolicy>) -> Seq<UnsyncStep> {
    match source {
        None => Seq::empty(),
        Some(p) => {
            let pull = match p.pull {
                ModelStorageBindingSyncPolicyPull::Always => seq![UnsyncStep::UnsyncPullAlways],
                _ => Seq::empty(),
            };
            let push = match p.push {
                ModelStorageBindingSyncPolicyPush::Always => seq![UnsyncStep::UnsyncPushAlways],
                ModelStorageBindingSyncPolicyPush::OnDelete => seq![UnsyncStep::PushOnDelete],
                ModelStorageBindingSyncPolicyPush::Never => Seq::empty(),
            };
            pull + push
        },
    }
}

/// The steps of unsyncing a bucket under the sync policy of its source.
pub fn unsync_steps(source: Option<ModelStorageBindingSyncPolicy>) -> (r: Vec<UnsyncStep>)
    ensures
        r@ == spec_unsync_steps(source),
{
    let mut r: Vec<UnsyncStep> = Vec::new();
    match source {
        None => {},
        Some(p) => {
            match p.pull {
                ModelStorageBindingSyncPolicyPull::Always => r.push(UnsyncStep::UnsyncPullAlways),
                _ => {},
            }
            match p.push {
                ModelStorageBindingSyncPolicyPush::Always => r.push(UnsyncStep::UnsyncPushAlways),
                ModelStorageBindingSyncPolicyPush::OnDelete => r.push(UnsyncStep::PushOnDelete),
                ModelStorageBindingSyncPolicyPush::Never => {},
            }
        },
    }
    proof {
        assert(r@ =~= spec_unsync_steps(source));
    }
    r
}

/// May the bucket be deleted after unsyncing: only where no step pushes it
/// back to the source with a job.
pub fn may_delete_after_unsync(steps: &Vec<UnsyncStep>) -> (r: bool)
    ensures
        r == !steps@.contains(UnsyncStep::PushOnDelete),
{
    let mut i: usize = 0;
    while i < steps.len()
        invariant
            i <= steps@.len(),
            forall|j: int| 0 <= j < i ==> steps@[j] != UnsyncStep::PushOnDelete,
        decreases steps@.len() - i,
    {
        if steps[i] == UnsyncStep::PushOnDelete {
            proof {
                assert(steps@[i as int] == UnsyncStep::PushOnDelete);
            }
            return false;
        }
        i = i + 1;
    }
    true
}

/// A bucket whose policy pushes it back on deletion is never deleted by
/// the target right after unsyncing; without a source it always may be.
pub proof fn lemma_push_on_delete_keeps_bucket(p: ModelStorageBindingSyncPolicy)
    ensures
        p.push == ModelStorageBindingSyncPolicyPush::OnDelete ==> spec_unsync_steps(Some(p)).contains(
            UnsyncStep::PushOnDelete,
        ),
        p.push != ModelStorageBindingSyncPolicyPush::OnDelete ==> !spec_unsync_steps(Some(p)).contains(
            UnsyncStep::PushOnDelete,
        ),
        !spec_unsync_steps(None).contains(UnsyncStep::PushOnDelete),
{
    let s = spec_unsync_steps(Some(p));
    if p.push == ModelStorageBindingSyncPolicyPush::OnDelete {
        assert(s[s.len() - 1] == UnsyncStep::PushOnDelete);
    }
}

/// A policy that moves no data syncs and unsyncs nothing.
pub proof fn lemma_none_policy_has_no_steps(p: ModelStorageBindingSyncPolicy)
    requires
        p.spec_is_none(),
    ensures
        spec_sync_steps(Some(p)).len() == 0,
        spec_unsync_steps(Some(p)).len() == 0,
{
}

/// Why syncing refuses a request.
#[derive(Debug)]
pub enum SyncError {
    /// A session can only be inverted towards its source.
    NoSource,
}

/// The bucket to use on the source side when the roles of source and
/// target are swapped: the source binding's name where it is given, else
/// the same bucket. A session without source cannot be inverted.
pub fn inverted_bucket(has_source: bool, source_binding_name: Option<&str>, bucket: &str) -> (r: Result<
    String,
    SyncError,
>)
    ensures
        !has_source ==> (r matches Err(SyncError::NoSource)),
        has_source ==> (r matches Ok(b) && b@ == (match source_binding_name {
            Some(n) => n@,
            None => bucket@,
        })),
{
    if !has_source {
        return Err(SyncError::NoSource);
    }
    match source_binding_name {
        Some(n) => Ok(n.to_owned()),
        None => Ok(bucket.to_owned()),
    }
}

/// A model's storage sessions as the provider syncs them: the target
/// session, the source session with its sync policy if there is one, and
/// the name of the source binding if one is given.
#[derive(Debug)]
pub struct StorageRef<S> {
    pub target: S,
    pub source: Option<(S, ModelStorageBindingSyncPolicy)>,
    pub source_binding_name: Option<String>,
}

impl<S: Copy> StorageRef<S> {
    /// The sessions with the roles of source and target swapped, for the
    /// bucket `bucket`: the source becomes the target, the target becomes
    /// the source under the same policy, and `bucket` is named as the
    /// source binding; with them, the bucket to use on the new target (see
    /// `inverted_bucket`). Sessions without a source cannot be inverted.
    pub fn inverted(&self, bucket: &str) -> (r: Result<(StorageRef<S>, String), SyncError>)
        ensures
            self.source is None ==> (r matches Err(SyncError::NoSource)),
            self.source matches Some((src, policy)) ==> (r matches Ok((inv, b)) && inv.target == src
                && inv.source == Some((self.target, policy)) && (inv.source_binding_name matches Some(n)
                && n@ == bucket@) && b@ == (match self.source_binding_name {
                Some(n) => n@,
                None => bucket@,
            })),
    {
        match &self.source {
            Some((src, policy)) => {
                let b = match &self.source_binding_name {
                    Some(n) => inverted_bucket(true, Some(n.as_str()), bucket),
                    None => inverted_bucket(true, None, bucket),
                };
                match b {
                    Ok(b) => Ok((
                        StorageRef {
                            target: *src,
                            source: Some((self.target, *policy)),
                            source_binding_name: Some(bucket.to_owned()),
                        },
                        b,
                    )),
                    Err(e) => Err(e),
                }
            },
            None => Err(SyncError::NoSource),
        }
    }
}

/// The part of a replication rule of a bucket that the provider reads: the
/// ARN of its destination bucket and its priority.
#[derive(Debug)]
pub struct ReplicationRuleView {
    pub bucket_arn: String,
    pub priority: Option<i32>,
}

/// The priority given to a new rule: one more than the highest priority
/// among the rules (a rule without priority counting as one), or one where
/// there is none; `None` where that overflows.
pub open spec fn spec_max_priority(rules: Seq<ReplicationRuleView>) -> Option<i32>
    decreases rules.len(),
{
    if rules.len() == 0 {
        None
    } else {
        let p = match rules.last().priority {
            Some(p) => p,
            None => 1,
        };
        match spec_max_priority(rules.drop_last()) {
            None => Some(p),
            Some(m) => Some(if m >= p { m } else { p }),
        }
    }
}

pub open spec fn spec_next_priority(rules: Seq<ReplicationRuleView>) -> Option<i32> {
    let m: i32 = match spec_max_priority(rules) {
        Some(m) => m,
        None => 0,
    };
    if m < i32::MAX {
        Some((m + 1) as i32)
    } else {
        None
    }
}

/// Does a rule already replicate to `arn`?
pub open spec fn spec_has_rule_for(rules: Seq<ReplicationRuleView>, arn: Seq<char>) -> bool {
    exists|i: int| 0 <= i < rules.len() && #[trigger] rules[i].bucket_arn@ == arn
}

/// The replication configuration to write: the rules, with a new last
/// rule to `arn` (identified by the ARN, replicating deletions, delete
/// markers and existing objects), and a role, given only where that rule
/// is the only one.
#[derive(Debug)]
pub struct ReplicationPlan {
    pub new_rule_arn: String,
    pub new_rule_priority: Option<i32>,
    pub role: Option<String>,
}

/// What to change in the replication of a bucket towards `arn`: nothing
/// where a rule already replicates there, else a new rule with the next
/// priority, and the ARN as role where the bucket had no rule.
pub fn plan_replication(rules: &Vec<ReplicationRuleView>, arn: &str) -> (r: Option<ReplicationPlan>)
    ensures
        spec_has_rule_for(rules@, arn@) <==> r is None,
        r is Some ==> r->0.new_rule_arn@ == arn@ && r->0.new_rule_priority == spec_next_priority(rules@),
        r is Some && rules@.len() == 0 ==> (r->0.role matches Some(role) && role@ == arn@),
        r is Some && rules@.len() > 0 ==> r->0.role is None,
{
    let mut max: Option<i32> = None;
    let mut i: usize = 0;
    while i < rules.len()
        invariant
            i <= rules@.len(),
            max == spec_max_priority(rules@.take(i as int)),
            forall|j: int| 0 <= j < i ==> rules@[j].bucket_arn@ != arn@,
        decreases rules@.len() - i,
    {
        if str_eq(rules[i].bucket_arn.as_str(), arn) {
            proof {
                assert(rules@[i as int].bucket_arn@ == arn@);
            }
            return None;
        }
        proof {
            assert(rules@.take(i + 1).drop_last() =~= rules@.take(i as int));
        }
        let p: i32 = match rules[i].priority {
            Some(p) => p,
            None => 1,
        };
        max = match max {
            None => Some(p),
            Some(m) => Some(if m >= p { m } else { p }),
        };
        i = i + 1;
    }
    proof {
        assert(rules@.take(rules@.len() as int) =~= rules@);
    }
    let m: i32 = match max {
        Some(m) => m,
        None => 0,
    };
    let priority = m.checked_add(1);
    let role = if rules.len() == 0 {
        Some(arn.to_owned())
    } else {
        None
    };
    Some(ReplicationPlan { new_rule_arn: arn.to_owned(), new_rule_priority: priority, role })
}

/// The highest priority bounds every rule's priority.
pub proof fn lemma_max_priority_bounds(rules: Seq<ReplicationRuleView>, i: int)
    requires
        0 <= i < rules.len(),
    ensures
        spec_max_priority(rules) matches Some(m) && m >= (match rules[i].priority {
            Some(p) => p,
            None => 1,
        }),
    decreases rules.len(),
{
    if i < rules.len() - 1 {
        lemma_max_priority_bounds(rules.drop_last(), i);
    }
}

/// A new rule ranks above every rule already there.
pub proof fn lemma_new_rule_ranks_first(rules: Seq<ReplicationRuleView>, i: int)
    requires
        0 <= i < rules.len(),
        spec_next_priority(rules) is Some,
    ensures
        spec_next_priority(rules)->0 > (match rules[i].priority {
            Some(p) => p,
            None => 1,
        }),
{
    lemma_max_priority_bounds(rules, i);
}

/// Replication is set up once: after the new rule is added, planning
/// again for the same ARN changes nothing.
pub proof fn lemma_replication_plan_idempotent(rules: Seq<ReplicationRuleView>, added: ReplicationRuleView)
    ensures
        spec_has_rule_for(rules.push(added), added.bucket_arn@),
{
    assert(rules.push(added)[rules.len() as int] == added);
}

/// Unsyncing stops exactly the replications that syncing starts: a policy
/// that pulls always is unsynced with `UnsyncPullAlways`, one that pushes
/// always with `UnsyncPushAlways`, and neither step comes otherwise.
pub proof fn lemma_unsync_stops_what_sync_starts(source: Option<ModelStorageBindingSyncPolicy>)
    ensures
        spec_sync_steps(source).contains(SyncStep::PullAlways) <==> spec_unsync_steps(source).contains(
            UnsyncStep::UnsyncPullAlways,
        ),
        spec_sync_steps(source).contains(SyncStep::PushAlways) <==> spec_unsync_steps(source).contains(
            UnsyncStep::UnsyncPushAlways,
        ),
        source matches Some(p) ==> (p.pull == ModelStorageBindingSyncPolicyPull::Always
            <==> spec_unsync_steps(source).contains(UnsyncStep::UnsyncPullAlways)),
        source matches Some(p) ==> (p.push == ModelStorageBindingSyncPolicyPush::Always
            <==> spec_unsync_steps(source).contains(UnsyncStep::UnsyncPushAlways)),
{
    let s = spec_sync_steps(source);
    let u = spec_unsync_steps(source);
    match source {
        None => {},
        Some(p) => {
            if p.pull == ModelStorageBindingSyncPolicyPull::Always {
                assert(s[0] == SyncStep::PullAlways);
                assert(u[0] == UnsyncStep::UnsyncPullAlways);
            }
            if p.push == ModelStorageBindingSyncPolicyPush::Always {
                assert(s[s.len() - 1] == SyncStep::PushAlways);
                assert(u[u.len() - 1] == UnsyncStep::UnsyncPushAlways);
            }
        },
    }
}

} // verus!
