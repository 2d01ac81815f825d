use dash::api::job::{DASH_JOB_FINALIZER_NAME, DASH_JOB_LABEL_TARGET_TASK, DASH_JOB_LABEL_TARGET_TASK_NAMESPACE};
use dash::provider::client::{
    check_job_task, job_inputs, log_pod, on_job_created, on_job_rolled_back, JobCreateStep, match_labels_selector, new_job, new_job_name, task_label_selector, ClientError,
};

fn is_uuid(s: &str) -> bool {
    s.len() == 36
        && s.chars().enumerate().all(|(i, c)| {
            if [8, 13, 18, 23].contains(&i) { c == '-' } else { c.is_ascii_digit() || ('a'..='f').contains(&c) }
        })
}

#[test]
fn new_jobs_get_fresh_names_and_labels() {
    let a = new_job_name("train");
    let b = new_job_name("train");
    assert!(a.starts_with("train-"));
    assert!(is_uuid(&a["train-".len()..]));
    assert_ne!(a, b);

    let job = new_job("train", "tasks", "user", 42u32);
    assert!(job.name.starts_with("train-") && is_uuid(&job.name[6..]));
    assert_eq!(job.namespace, "user");
    assert_eq!(job.finalizers, vec![DASH_JOB_FINALIZER_NAME.to_string()]);
    assert_eq!(job.labels.get(DASH_JOB_LABEL_TARGET_TASK).map(|s| s.as_str()), Some("train"));
    assert_eq!(job.labels.get(DASH_JOB_LABEL_TARGET_TASK_NAMESPACE).map(|s| s.as_str()), Some("tasks"));
    assert_eq!(job.labels.len(), 2);
    assert_eq!(job.task, "train");
    assert_eq!(job.value, 42);
}

#[test]
fn jobs_are_checked_and_selected() {
    assert!(check_job_task("train", "train", "job-1").is_ok());
    match check_job_task("other", "train", "job-1") {
        Err(ClientError::UnexpectedJob { expected, given }) => {
            assert_eq!(expected, "job-1");
            assert_eq!(given, "other");
        },
        _ => panic!("expected an unexpected job"),
    }
    assert_eq!(task_label_selector("train"), format!("{}=train", DASH_JOB_LABEL_TARGET_TASK));
    let labels = vec![("app".to_string(), "x".to_string()), ("job".to_string(), "y".to_string())];
    assert_eq!(match_labels_selector(&labels), "app=x,job=y");
    assert_eq!(match_labels_selector(&vec![]), "");
    let pods = vec!["pod-a".to_string(), "pod-b".to_string()];
    assert_eq!(log_pod(&pods, "t", "j").unwrap(), "pod-a");
    assert!(matches!(log_pod(&vec![], "t", "j"), Err(ClientError::NoSuchPod { .. })));
}

#[test]
fn jobs_are_created_or_rolled_back() {
    let inputs = job_inputs(vec![("a".to_string(), 1u8), ("b".to_string(), 2u8)]);
    assert_eq!(inputs, vec![("/a/".to_string(), 1u8), ("/b/".to_string(), 2u8)]);
    assert!(matches!(on_job_created::<u8>(Ok(7)), JobCreateStep::Done(7)));
    match on_job_created::<u8>(Err("no".to_string())) {
        JobCreateStep::RollBack(e) => assert_eq!(e, "no"),
        _ => panic!("expected a roll-back"),
    }
    assert_eq!(on_job_rolled_back("create failed".to_string(), Ok(())), "create failed");
    assert_eq!(on_job_rolled_back("create failed".to_string(), Err("delete failed".to_string())), "create failed\ndelete failed");
}
