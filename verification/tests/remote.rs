use dash::provider_api::Capacity;
use dash::provider::remote::{
    pools_capacity,
    credentials_from_secret, find_remote_target, joins_site_replication, remote_target_request, site_names, RemoteTarget,
    SecretError,
};

fn target(arn: &str, key: &str, endpoint: &str, source: &str, dest: &str) -> RemoteTarget {
    RemoteTarget {
        arn: arn.to_string(),
        access_key: key.to_string(),
        endpoint: endpoint.to_string(),
        sourcebucket: source.to_string(),
        targetbucket: dest.to_string(),
    }
}

#[test]
fn remote_target_is_found_by_host_key_and_buckets() {
    let targets = vec![
        target("arn:1", "other", "minio.b", "a", "b"),
        target("arn:2", "key", "minio.b", "a", "b"),
        target("arn:3", "key", "minio.b", "a", "b"),
    ];
    assert_eq!(find_remote_target(&targets, Some("minio.b"), "key", Some("a"), "b"), Some("arn:2".to_string()));
    assert_eq!(find_remote_target(&targets, None, "key", Some("a"), "b"), None);
    assert_eq!(find_remote_target(&targets, Some("minio.c"), "key", Some("a"), "b"), None);
    // without a source bucket, the target bucket stands for it
    let same = vec![target("arn:4", "key", "h", "b", "b")];
    assert_eq!(find_remote_target(&same, Some("h"), "key", None, "b"), Some("arn:4".to_string()));
    assert_eq!(find_remote_target(&same, Some("h"), "key", Some("a"), "b"), None);
    assert_eq!(find_remote_target(&vec![], Some("h"), "key", None, "b"), None);
}

#[test]
fn remote_target_request_fields() {
    let r = remote_target_request(Some("src"), "dst", Some("minio.b"), "https");
    assert_eq!(r.sourcebucket, "dst");
    assert_eq!(r.endpoint, Some("minio.b".to_string()));
    assert_eq!(r.targetbucket, "src");
    assert!(r.secure);
    let r = remote_target_request(None, "dst", None, "http");
    assert_eq!(r.targetbucket, "dst");
    assert_eq!(r.endpoint, None);
    assert!(!r.secure);
}

#[test]
fn site_replication_names() {
    let (a, b) = site_names("http://a", "http://b", "one", "two");
    assert_eq!(a, "http://a,http://b,one");
    assert_eq!(b, "http://b,http://a,two");
    assert!(joins_site_replication(false));
    assert!(!joins_site_replication(true));
}

#[test]
fn credentials_are_read_from_secret_data() {
    let data = vec![
        ("CONSOLE_ACCESS_KEY".to_string(), b"admin".to_vec()),
        ("CONSOLE_SECRET_KEY".to_string(), b"s3cr3t".to_vec()),
    ];
    let r = credentials_from_secret("creds", Some(data.clone()), "CONSOLE_ACCESS_KEY", "CONSOLE_SECRET_KEY");
    assert!(matches!(r, Ok((ref a, ref s)) if a == "admin" && s == "s3cr3t"));

    let r = credentials_from_secret("creds", None, "CONSOLE_ACCESS_KEY", "CONSOLE_SECRET_KEY");
    assert!(matches!(r, Err(SecretError::NoSuchSecret { ref name }) if name == "creds"));

    let r = credentials_from_secret("creds", Some(data.clone()), "MISSING", "CONSOLE_SECRET_KEY");
    assert!(matches!(r, Err(SecretError::NoSuchKey { ref key, .. }) if key == "MISSING"));

    // a value is taken out as it is read: the same key twice finds the second missing
    let r = credentials_from_secret("creds", Some(data), "CONSOLE_ACCESS_KEY", "CONSOLE_ACCESS_KEY");
    assert!(matches!(r, Err(SecretError::NoSuchKey { ref key, .. }) if key == "CONSOLE_ACCESS_KEY"));

    let bad = vec![("K".to_string(), vec![0xff, 0xfe]), ("S".to_string(), b"x".to_vec())];
    let r = credentials_from_secret("creds", Some(bad), "K", "S");
    assert!(matches!(r, Err(SecretError::NotUtf8 { ref key, .. }) if key == "K"));
}

#[test]
fn storage_capacity_sums_every_pool() {
    let pools = vec![
        vec![Capacity { capacity: 100, usage: 10 }, Capacity { capacity: 50, usage: 5 }],
        vec![],
        vec![Capacity { capacity: 1, usage: 1 }],
    ];
    assert_eq!(pools_capacity(&pools), Capacity { capacity: 151, usage: 16 });
    assert_eq!(pools_capacity(&vec![]), Capacity { capacity: 0, usage: 0 });
    let huge = vec![vec![Capacity { capacity: u64::MAX, usage: 0 }], vec![Capacity { capacity: 1, usage: 2 }]];
    assert_eq!(pools_capacity(&huge), Capacity { capacity: u64::MAX, usage: 2 });
}
