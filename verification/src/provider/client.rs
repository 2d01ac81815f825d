//! The job client of the provider: the jobs it creates for tasks, how it
//! finds them again, and what it asks of the cluster to read their logs.

use vstd::prelude::*;
use crate::api::job::{DASH_JOB_FINALIZER_NAME, DASH_JOB_LABEL_TARGET_TASK, DASH_JOB_LABEL_TARGET_TASK_NAMESPACE};
use crate::strmap::StrMap;
use crate::text::{concat3, join, spec_join, str_eq, views};

verus! {

/// A lower-case hexadecimal digit.
pub open spec fn is_lower_hex(c: char) -> bool {
    ('0' <= c && c <= '9') || ('a' <= c && c <= 'f')
}

/// The text of a UUID in its hyphenated form: 32 lower-case hexadecimal
/// digits in groups of 8, 4, 4, 4 and 12, joined by hyphens.
pub open spec fn is_hyphenated_uuid(s: Seq<char>) -> bool {
    &&& s.len() == 36
    &&& forall|i: int|
        0 <= i < 36 ==> (if i == 8 || i == 13 || i == 18 || i == 23 {
            #[trigger] s[i] == '-'
        } else {
            is_lower_hex(s[i])
        })
}

/// Calls `uuid::Uuid::new_v4` and formats the UUID with `Display`. Trusted:
/// the crate's source formats a UUID as its hyphenated lower-case text; the
/// UUID itself is random, and nothing more is said of it.
#[verifier::external_body]
fn random_uuid_text() -> (s: String)
    ensures
        is_hyphenated_uuid(s@),
{
    uuid::Uuid::new_v4().to_string()
}

/// A job about to be created for a task.
#[derive(Debug)]
pub struct NewJob<Value> {
    pub name: String,
    pub namespace: String,
    pub finalizers: Vec<String>,
    pub labels: StrMap,
    pub task: String,
    pub value: Value,
}

/// The name of a new job of a task: the task's name, a hyphen and a fresh
/// UUID.
pub fn new_job_name(task_name: &str) -> (r: String)
    ensures
        r@.len() == task_name@.len() + 37,
        r@.subrange(0, task_name@.len() as int) == task_name@,
        r@[task_name@.len() as int] == '-',
        is_hyphenated_uuid(r@.subrange(task_name@.len() + 1int, r@.len() as int)),
{
    let uuid = random_uuid_text();
    let r = concat3(task_name, "-", uuid.as_str());
    proof {
        reveal_strlit("-");
        assert(r@.subrange(0, task_name@.len() as int) =~= task_name@);
        assert(r@.subrange(task_name@.len() + 1int, r@.len() as int) =~= uuid@);
    }
    r
}

/// The job that runs a task with a value, in the namespace of the session:
/// a fresh name, the jobs' finalizer, and labels naming the task and its
/// namespace.
pub fn new_job<Value>(task_name: &str, task_namespace: &str, session_namespace: &str, value: Value) -> (r: NewJob<Value>)
    ensures
        r.name@.subrange(0, task_name@.len() as int) == task_name@,
        r.name@.len() == task_name@.len() + 37,
        r.name@[task_name@.len() as int] == '-',
        is_hyphenated_uuid(r.name@.subrange(task_name@.len() + 1int, r.name@.len() as int)),
        r.namespace@ == session_namespace@,
        views(r.finalizers@) == seq![DASH_JOB_FINALIZER_NAME@],
        r.labels@ == Map::<Seq<char>, Seq<char>>::empty().insert(DASH_JOB_LABEL_TARGET_TASK@, task_name@).insert(
            DASH_JOB_LABEL_TARGET_TASK_NAMESPACE@,
            task_namespace@,
        ),
        r.task@ == task_name@,
        r.value == value,
{
    let mut labels = StrMap::new();
    labels.insert(DASH_JOB_LABEL_TARGET_TASK.to_owned(), task_name.to_owned());
    labels.insert(DASH_JOB_LABEL_TARGET_TASK_NAMESPACE.to_owned(), task_namespace.to_owned());
    let mut finalizers: Vec<String> = Vec::new();
    finalizers.push(DASH_JOB_FINALIZER_NAME.to_owned());
    proof {
        assert(views(finalizers@) =~= seq![DASH_JOB_FINALIZER_NAME@]);
    }
    NewJob {
        name: new_job_name(task_name),
        namespace: session_namespace.to_owned(),
        finalizers,
        labels,
        task: task_name.to_owned(),
        value,
    }
}

/// Why the job client cannot go on.
#[derive(Debug)]
pub enum ClientError {
    /// The job of that name runs another task; the error names the job
    /// where it was expected and the task it runs.
    UnexpectedJob { expected: String, given: String },
    /// The task has no job of that name.
    NoSuchJob { task: String, job: String },
    /// The job has no pod yet.
    NoSuchPod { task: String, job: String },
    /// Only jobs run on the cluster have logs to follow.
    NotWatchable { task: String, job: String },
}

/// Is the job found under a name one of the task's? It is where it runs
/// that task; else it is refused.
pub fn check_job_task(job_task: &str, task_name: &str, job_name: &str) -> (r: Result<(), ClientError>)
    ensures
        r is Ok <==> job_task@ == task_name@,
        r matches Err(ClientError::UnexpectedJob { expected, given }) ==> expected@ == job_name@ && given@
            == job_task@,
        r is Err ==> r matches Err(ClientError::UnexpectedJob { .. }),
{
    if str_eq(job_task, task_name) {
        Ok(())
    } else {
        Err(ClientError::UnexpectedJob { expected: job_name.to_owned(), given: job_task.to_owned() })
    }
}

/// The label selector of the jobs of a task.
pub fn task_label_selector(task_name: &str) -> (r: String)
    ensures
        r@ == DASH_JOB_LABEL_TARGET_TASK@ + "="@ + task_name@,
{
    concat3(DASH_JOB_LABEL_TARGET_TASK, "=", task_name)
}

/// One `key=value` condition per label, joined by commas, in the order
/// given.
pub open spec fn spec_match_labels(labels: Seq<(Seq<char>, Seq<char>)>) -> Seq<char> {
    spec_join(labels.map_values(|e: (Seq<char>, Seq<char>)| e.0 + "="@ + e.1), ","@)
}

/// The label selector of the pods of a job, from the labels it matches.
pub fn match_labels_selector(labels: &Vec<(String, String)>) -> (r: String)
    ensures
        r@ == spec_match_labels(labels@.map_values(|e: (String, String)| (e.0@, e.1@))),
{
    let mut parts: Vec<String> = Vec::new();
    let mut i: usize = 0;
    while i < labels.len()
        invariant
            i <= labels@.len(),
            parts@.len() == i,
            forall|j: int| 0 <= j < i ==> (#[trigger] parts@[j])@ == labels@[j].0@ + "="@ + labels@[j].1@,
        decreases labels@.len() - i,
    {
        parts.push(concat3(labels[i].0.as_str(), "=", labels[i].1.as_str()));
        i = i + 1;
    }
    proof {
        assert(views(parts@) =~= labels@.map_values(|e: (String, String)| (e.0@, e.1@)).map_values(
            |e: (Seq<char>, Seq<char>)| e.0 + "="@ + e.1,
        ));
    }
    join(&parts, ",")
}

/// The pod whose logs are followed: the first that the selector lists.
pub fn log_pod<'a>(pods: &'a Vec<String>, task_name: &str, job_name: &str) -> (r: Result<&'a String, ClientError>)
    ensures
        pods@.len() > 0 ==> (r matches Ok(p) && *p == pods@[0]),
        pods@.len() == 0 ==> (r matches Err(ClientError::NoSuchPod { task, job }) && task@ == task_name@ && job@
            == job_name@),
{
    if pods.len() > 0 {
        Ok(&pods[0])
    } else {
        Err(ClientError::NoSuchPod { task: task_name.to_owned(), job: job_name.to_owned() })
    }
}

/// The inputs of a job's task: each value of the job under the field path
/// `/{key}/` of its key, in order.
pub fn job_inputs<V>(value: Vec<(String, V)>) -> (r: Vec<(String, V)>)
    ensures
        r@.len() == value@.len(),
        forall|i: int|
            0 <= i < r@.len() ==> (#[trigger] r@[i]).0@ == "/"@ + value@[i].0@ + "/"@ && r@[i].1 == value@[i].1,
{
    let ghost all = value@;
    let total: usize = value.len();
    let mut rest = value;
    let mut r: Vec<(String, V)> = Vec::new();
    let mut done: usize = 0;
    while rest.len() > 0
        invariant
            total == all.len(),
            done + rest@.len() == all.len(),
            rest@ == all.skip(done as int),
            r@.len() == done,
            forall|i: int| 0 <= i < done ==> (#[trigger] r@[i]).0@ == "/"@ + all[i].0@ + "/"@ && r@[i].1 == all[i].1,
        decreases rest@.len(),
    {
        let (key, v) = rest.remove(0);
        proof {
            assert(all[done as int] == (key, v));
            assert(rest@ =~= all.skip(done + 1));
        }
        r.push((concat3("/", key.as_str(), "/"), v));
        done = done + 1;
    }
    r
}

/// What follows the creation of a job's task: the job's channel where it
/// was created; else its objects are deleted again.
pub enum JobCreateStep<T> {
    Done(T),
    RollBack(String),
}

/// The step after creating a job's task.
pub fn on_job_created<T>(created: Result<T, String>) -> (r: JobCreateStep<T>)
    ensures
        match created {
            Ok(c) => r == JobCreateStep::Done(c),
            Err(e) => r == JobCreateStep::<T>::RollBack(e),
        },
{
    match created {
        Ok(c) => JobCreateStep::Done(c),
        Err(e) => JobCreateStep::RollBack(e),
    }
}

/// The error of a job whose task could not be created, once its objects
/// were deleted again: the creation's error, followed on a new line by the
/// deletion's where that failed too.
pub fn on_job_rolled_back(create_error: String, reverted: Result<(), String>) -> (r: String)
    ensures
        match reverted {
            Ok(()) => r@ == create_error@,
            Err(e) => r@ == create_error@ + "\n"@ + e@,
        },
{
    match reverted {
        Ok(()) => create_error,
        Err(e) => concat3(create_error.as_str(), "\n", e.as_str()),
    }
}

} // verus!
