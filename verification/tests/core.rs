use dash::ark::cluster::{get_cluster_domain, get_cluster_name, shortest_domain, ClusterError};
use dash::ark::env::{infer, parse_error_message, InferError};
use dash::ark::result::Result as WireResult;
use dash::ark::signal::{exit_code, FunctionSignal};
use dash::collector;
use dash::name::{Name, NameError};
use dash::strmap::StrMap;
use dash::text::{concat3, decimal, join, signed_decimal, str_eq, str_starts_with};
use dash::url::Url;

#[test]
fn name_accepts_dotted_segments() {
    let name = Name::parse("dash.raw.logs").unwrap();
    assert_eq!(name.as_str(), "dash.raw.logs");
    assert!(Name::parse("_a-b.c_9").is_ok());
}

#[test]
fn name_rejects_bad_text() {
    assert_eq!(Name::parse("").unwrap_err(), NameError::Empty);
    assert_eq!(Name::parse("9abc").unwrap_err(), NameError::InvalidChar { index: 0 });
    assert_eq!(Name::parse("abc.").unwrap_err(), NameError::InvalidChar { index: 3 });
    assert_eq!(Name::parse("ab.9c").unwrap_err(), NameError::InvalidChar { index: 3 });
    assert_eq!(Name::parse("aB").unwrap_err(), NameError::InvalidChar { index: 1 });
}

#[test]
fn collector_models() {
    assert_eq!(collector::logs::model().unwrap().as_str(), "dash.raw.logs");
    assert_eq!(collector::metrics::model().unwrap().as_str(), "dash.raw.metrics");
    assert_eq!(collector::trace::model().unwrap().as_str(), "dash.raw.trace");
}

#[test]
fn strmap_insert_get_remove() {
    let mut m = StrMap::new();
    m.insert("a".to_string(), "1".to_string());
    m.insert("b".to_string(), "2".to_string());
    m.insert("a".to_string(), "3".to_string());
    assert_eq!(m.len(), 2);
    assert_eq!(m.get("a").map(|s| s.as_str()), Some("3"));
    assert_eq!(m.remove("a"), Some("3".to_string()));
    assert_eq!(m.get("a"), None);
    assert!(m.contains_key("b"));
    assert_eq!(m.remove("zzz"), None);
}

#[test]
fn strmap_same_entries_ignores_order() {
    let mut a = StrMap::new();
    a.insert("x".to_string(), "1".to_string());
    a.insert("y".to_string(), "2".to_string());
    let mut b = StrMap::new();
    b.insert("y".to_string(), "2".to_string());
    b.insert("x".to_string(), "1".to_string());
    assert!(a.same_entries(&b));
    b.insert("x".to_string(), "9".to_string());
    assert!(!a.same_entries(&b));
}

#[test]
fn text_helpers() {
    assert!(str_eq("abc", "abc"));
    assert!(!str_eq("abc", "abd"));
    assert!(str_starts_with("object-storage", "object"));
    assert!(!str_starts_with("obj", "object"));
    assert_eq!(concat3("a", "-", "b"), "a-b");
    assert_eq!(join(&vec!["a".to_string(), "b".to_string(), "c".to_string()], ","), "a,b,c");
    assert_eq!(join(&vec![], ","), "");
    assert_eq!(decimal(0), "0");
    assert_eq!(decimal(1234567890123), "1234567890123");
    assert_eq!(decimal(u64::MAX), u64::MAX.to_string());
    assert_eq!(signed_decimal(-42), "-42");
    assert_eq!(signed_decimal(i64::MIN), i64::MIN.to_string());
}

#[test]
fn url_parse_keeps_parts() {
    let url = Url::parse("http://object-storage.ns.svc").unwrap();
    assert_eq!(url.as_str(), "http://object-storage.ns.svc/");
    assert_eq!(url.scheme(), "http");
    assert_eq!(url.host_str(), Some("object-storage.ns.svc"));
    assert!(Url::parse("not a url").is_none());
}

#[test]
fn infer_reads_given_value() {
    assert_eq!(infer("KEY", Some("v".to_string())).unwrap(), "v");
    match infer("KEY", None) {
        Err(e @ InferError::Missing { .. }) => {
            assert_eq!(e.message(), "failed to find the environment variable: KEY")
        }
        Ok(_) => panic!("expected an error"),
    }
    assert_eq!(
        parse_error_message("PORT", "invalid digit"),
        "failed to parse the environment variable (PORT): invalid digit"
    );
}

#[test]
fn wire_result_from_std() {
    let ok: WireResult<u32> = WireResult::from_std(Ok(3));
    assert!(ok.is_ok());
    let err: WireResult<u32> = WireResult::from_std(Err("boom".to_string()));
    assert!(!err.is_ok());
    match err {
        WireResult::Failure(m) => assert_eq!(m, "boom"),
        WireResult::Success(_) => panic!("expected a failure"),
    }
}

#[test]
fn signal_flags() {
    let signal = FunctionSignal::new();
    assert!(!signal.is_terminating());
    let clone = signal.clone();
    clone.terminate();
    assert!(signal.is_terminating());
    assert!(!signal.is_erroneous());
    signal.terminate_on_panic();
    assert!(clone.is_erroneous());
    assert_eq!(exit_code(true), 1);
    assert_eq!(exit_code(false), 0);
}

#[test]
fn cluster_domain_is_shortest_search() {
    let conf = b"nameserver 10.0.0.1\nsearch ns.svc.ops.openark svc.ops.openark ops.openark\n";
    assert_eq!(get_cluster_domain(conf).unwrap(), "ops.openark");
    let conf = b"search bb aa ccc\n";
    assert_eq!(get_cluster_domain(conf).unwrap(), "bb");
    let conf = b"nameserver 10.0.0.1\n";
    assert_eq!(get_cluster_domain(conf).unwrap(), "ops.openark");
    assert_eq!(shortest_domain(&Some(vec![])), "ops.openark");
}

#[test]
fn cluster_name_is_sha256_hex() {
    let name: String = get_cluster_name(Some(b"abc")).unwrap();
    assert_eq!(name.len(), 64);
    assert_eq!(name, "ba7816bf8f01cfea414140de5dae2223b00361a396177a9cb410ff61f20015ad");
    assert!(matches!(get_cluster_name(None), Err(ClusterError::NoKubeConfig)));
}
