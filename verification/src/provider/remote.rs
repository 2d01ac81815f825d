use vstd::prelude::*;
use crate::provider_api::{Capacity, spec_sum};
use crate::text::{concat5, str_eq};

verus! {

/// A replication target of a bucket, as the storage lists it.
#[derive(Debug)]
pub struct RemoteTarget {
    pub arn: String,
    pub access_key: String,
    pub endpoint: String,
    pub sourcebucket: String,
    pub targetbucket: String,
}

/// Does a listed target replicate to the given endpoint host, with the
/// given access key, between the given buckets?
pub open spec fn spec_target_matches(
    t: RemoteTarget,
    host: Option<Seq<char>>,
    access_key: Seq<char>,
    bucket_source: Seq<char>,
    bucket_target: Seq<char>,
) -> bool {
    host == Some(t.endpoint@) && t.access_key@ == access_key && t.sourcebucket@ == bucket_source
        && t.targetbucket@ == bucket_target
}

/// The index of the first target of `targets` that matches.
pub open spec fn spec_first_target(
    targets: Seq<RemoteTarget>,
    host: Option<Seq<char>>,
    access_key: Seq<char>,
    bucket_source: Seq<char>,
    bucket_target: Seq<char>,
) -> Option<int>
    decreases targets.len(),
{
    if targets.len() == 0 {
        None
    } else {
        match spec_first_target(targets.drop_last(), host, access_key, bucket_source, bucket_target) {
            Some(i) => Some(i),
            None => if spec_target_matches(targets.last(), host, access_key, bucket_source, bucket_target) {
                Some(targets.len() - 1)
            } else {
                None
            },
        }
    }
}

proof fn lemma_first_target_prefix(
    targets: Seq<RemoteTarget>,
    host: Option<Seq<char>>,
    access_key: Seq<char>,
    bucket_source: Seq<char>,
    bucket_target: Seq<char>,
    k: int,
)
    requires
        0 <= k <= targets.len(),
        spec_first_target(targets.take(k), host, access_key, bucket_source, bucket_target) is Some,
    ensures
        spec_first_target(targets, host, access_key, bucket_source, bucket_target)
            == spec_first_target(targets.take(k), host, access_key, bucket_source, bucket_target),
    decreases targets.len() - k,
{
    if k < targets.len() {
        assert(targets.take(k + 1).drop_last() =~= targets.take(k));
        lemma_first_target_prefix(targets, host, access_key, bucket_source, bucket_target, k + 1);
    } else {
        assert(targets.take(k) =~= targets);
    }
}

/// The host that a storage endpoint names, as a spec value.
pub open spec fn spec_host(host: Option<&str>) -> Option<Seq<char>> {
    match host {
        Some(h) => Some(h@),
        None => None,
    }
}

/// The bucket that replication starts from: the source bucket where one is
/// named, else the target bucket.
pub open spec fn spec_source_bucket(bucket_source: Option<&str>, bucket_target: &str) -> Seq<char> {
    match bucket_source {
        Some(s) => s@,
        None => bucket_target@,
    }
}

/// The ARN of the first listed target that replicates to the target
/// storage's host with its access key, from the source bucket (the target
/// bucket where none is named) to the target bucket.
pub fn find_remote_target(
    targets: &Vec<RemoteTarget>,
    host: Option<&str>,
    access_key: &str,
    bucket_source: Option<&str>,
    bucket_target: &str,
) -> (r: Option<String>)
    ensures
        match spec_first_target(
            targets@,
            spec_host(host),
            access_key@,
            spec_source_bucket(bucket_source, bucket_target),
            bucket_target@,
        ) {
            Some(i) => r matches Some(arn) && 0 <= i < targets@.len() && arn@ == targets@[i].arn@,
            None => r is None,
        },
{
    let source: &str = match bucket_source {
        Some(s) => s,
        None => bucket_target,
    };
    let ghost h = spec_host(host);
    let mut i: usize = 0;
    while i < targets.len()
        invariant
            i <= targets@.len(),
            h == spec_host(host),
            source@ == spec_source_bucket(bucket_source, bucket_target),
            spec_first_target(targets@.take(i as int), h, access_key@, source@, bucket_target@) is None,
        decreases targets@.len() - i,
    {
        proof {
            assert(targets@.take(i + 1).drop_last() =~= targets@.take(i as int));
        }
        let t = &targets[i];
        let same_host = match host {
            Some(hs) => str_eq(t.endpoint.as_str(), hs),
            None => false,
        };
        if same_host && str_eq(t.access_key.as_str(), access_key) && str_eq(t.sourcebucket.as_str(), source)
            && str_eq(t.targetbucket.as_str(), bucket_target) {
            proof {
                lemma_first_target_prefix(targets@, h, access_key@, source@, bucket_target@, i + 1);
            }
            return Some(t.arn.clone());
        }
        i = i + 1;
    }
    proof {
        assert(targets@.take(targets@.len() as int) =~= targets@);
    }
    None
}

/// What is asked of the storage to replicate a bucket to a target: the
/// bucket replicated (the target bucket), the target's host, the bucket it
/// lands in (the source bucket where one is named, else the same), and
/// whether the target is reached over HTTPS.
#[derive(Debug)]
pub struct RemoteTargetRequest {
    pub sourcebucket: String,
    pub endpoint: Option<String>,
    pub targetbucket: String,
    pub secure: bool,
}

/// The request that sets a replication target.
pub fn remote_target_request(
    bucket_source: Option<&str>,
    bucket_target: &str,
    host: Option<&str>,
    scheme: &str,
) -> (r: RemoteTargetRequest)
    ensures
        r.sourcebucket@ == bucket_target@,
        match (r.endpoint, host) {
            (Some(a), Some(b)) => a@ == b@,
            (None, None) => true,
            _ => false,
        },
        r.targetbucket@ == (match bucket_source {
            Some(s) => s@,
            None => bucket_target@,
        }),
        r.secure == (scheme@ == "https"@),
{
    RemoteTargetRequest {
        sourcebucket: bucket_target.to_owned(),
        endpoint: match host {
            Some(h) => Some(h.to_owned()),
            None => None,
        },
        targetbucket: match bucket_source {
            Some(s) => s.to_owned(),
            None => bucket_target.to_owned(),
        },
        secure: str_eq(scheme, "https"),
    }
}

/// The names of the two sites of a site replication: the origin's and the
/// target's, each naming both endpoints and its own storage.
pub fn site_names(origin_endpoint: &str, target_endpoint: &str, origin_name: &str, target_name: &str) -> (r: (String, String))
    ensures
        r.0@ == origin_endpoint@ + ","@ + target_endpoint@ + ","@ + origin_name@,
        r.1@ == target_endpoint@ + ","@ + origin_endpoint@ + ","@ + target_name@,
{
    let a = concat5(origin_endpoint, ",", target_endpoint, ",", origin_name);
    let b = concat5(target_endpoint, ",", origin_endpoint, ",", target_name);
    (a, b)
}

/// A cloned storage joins the site replication of its source only where
/// the source has none yet.
pub fn joins_site_replication(enabled: bool) -> (r: bool)
    ensures
        r == !enabled,
{
    !enabled
}

/// Why the credentials of a storage cannot be read.
#[derive(Debug)]
pub enum SecretError {
    /// The secret does not exist.
    NoSuchSecret { name: String },
    /// The secret lacks a key.
    NoSuchKey { name: String, key: String },
    /// A value of the secret is not UTF-8 text.
    NotUtf8 { name: String, key: String },
}

/// Calls `String::from_utf8`. Trusted: as its documentation says, it
/// succeeds exactly on valid UTF-8, and then holds the decoded text.
#[verifier::external_body]
fn string_from_utf8(bytes: Vec<u8>) -> (r: Option<String>)
    ensures
        r is Some <==> vstd::utf8::valid_utf8(bytes@),
        r matches Some(s) ==> s@ == vstd::utf8::decode_utf8(bytes@),
{
    String::from_utf8(bytes).ok()
}

/// The first entry of the data of a secret under `key`.
pub open spec fn spec_entry(data: Seq<(String, Vec<u8>)>, key: Seq<char>) -> Option<int>
    decreases data.len(),
{
    if data.len() == 0 {
        None
    } else {
        match spec_entry(data.drop_last(), key) {
            Some(i) => Some(i),
            None => if data.last().0@ == key {
                Some(data.len() - 1)
            } else {
                None
            },
        }
    }
}

proof fn lemma_entry_prefix(data: Seq<(String, Vec<u8>)>, key: Seq<char>, k: int)
    requires
        0 <= k <= data.len(),
        spec_entry(data.take(k), key) is Some,
    ensures
        spec_entry(data, key) == spec_entry(data.take(k), key),
    decreases data.len() - k,
{
    if k < data.len() {
        assert(data.take(k + 1).drop_last() =~= data.take(k));
        lemma_entry_prefix(data, key, k + 1);
    } else {
        assert(data.take(k) =~= data);
    }
}

fn take_entry(data: &mut Vec<(String, Vec<u8>)>, key: &str) -> (r: Option<Vec<u8>>)
    ensures
        match spec_entry(old(data)@, key@) {
            Some(i) => r == Some(old(data)@[i].1) && final(data)@ == old(data)@.remove(i),
            None => r is None && final(data)@ == old(data)@,
        },
{
    let mut i: usize = 0;
    while i < data.len()
        invariant
            i <= data@.len(),
            data@ == old(data)@,
            spec_entry(data@.take(i as int), key@) is None,
        decreases data@.len() - i,
    {
        proof {
            assert(data@.take(i + 1).drop_last() =~= data@.take(i as int));
        }
        if str_eq(data[i].0.as_str(), key) {
            proof {
                lemma_entry_prefix(data@, key@, i + 1);
            }
            let (_, v) = data.remove(i);
            return Some(v);
        }
        i = i + 1;
    }
    proof {
        assert(data@.take(data@.len() as int) =~= data@);
    }
    None
}

/// The access and secret keys of a storage, read from the data of the
/// secret that its reference names, under the keys it maps them to. Each
/// value is taken out of the data as it is read, so two keys of the same
/// name find the second missing.
pub fn credentials_from_secret(
    secret_name: &str,
    data: Option<Vec<(String, Vec<u8>)>>,
    map_access_key: &str,
    map_secret_key: &str,
) -> (r: Result<(String, String), SecretError>)
    ensures
        data is None ==> (r matches Err(SecretError::NoSuchSecret { name }) && name@ == secret_name@),
        data matches Some(d) ==> (match spec_entry(d@, map_access_key@) {
            None => r matches Err(SecretError::NoSuchKey { name, key }) && name@ == secret_name@ && key@
                == map_access_key@,
            Some(i) => if !vstd::utf8::valid_utf8(d@[i].1@) {
                r matches Err(SecretError::NotUtf8 { name, key }) && name@ == secret_name@ && key@
                    == map_access_key@
            } else {
                match spec_entry(d@.remove(i), map_secret_key@) {
                    None => r matches Err(SecretError::NoSuchKey { name, key }) && name@ == secret_name@
                        && key@ == map_secret_key@,
                    Some(j) => if !vstd::utf8::valid_utf8(d@.remove(i)[j].1@) {
                        r matches Err(SecretError::NotUtf8 { name, key }) && name@ == secret_name@ && key@
                            == map_secret_key@
                    } else {
                        r matches Ok((a, s)) && a@ == vstd::utf8::decode_utf8(d@[i].1@) && s@
                            == vstd::utf8::decode_utf8(d@.remove(i)[j].1@)
                    },
                }
            },
        }),
{
    let mut data = match data {
        Some(d) => d,
        None => return Err(SecretError::NoSuchSecret { name: secret_name.to_owned() }),
    };
    let access = match take_entry(&mut data, map_access_key) {
        Some(v) => v,
        None => return Err(SecretError::NoSuchKey { name: secret_name.to_owned(), key: map_access_key.to_owned() }),
    };
    let access = match string_from_utf8(access) {
        Some(s) => s,
        None => return Err(SecretError::NotUtf8 { name: secret_name.to_owned(), key: map_access_key.to_owned() }),
    };
    let secret = match take_entry(&mut data, map_secret_key) {
        Some(v) => v,
        None => return Err(SecretError::NoSuchKey { name: secret_name.to_owned(), key: map_secret_key.to_owned() }),
    };
    let secret = match string_from_utf8(secret) {
        Some(s) => s,
        None => return Err(SecretError::NotUtf8 { name: secret_name.to_owned(), key: map_secret_key.to_owned() }),
    };
    Ok((access, secret))
}

/// The pools of all servers, one after another.
pub open spec fn flatten_pools(pools: Seq<Vec<Capacity>>) -> Seq<Capacity>
    decreases pools.len(),
{
    if pools.len() == 0 {
        Seq::empty()
    } else {
        flatten_pools(pools.drop_last()) + pools.last()@
    }
}

/// The capacity of a whole storage from what its servers report of their
/// pools: the raw capacity and the usage of every pool, summed.
pub fn pools_capacity(pools: &Vec<Vec<Capacity>>) -> (r: Capacity)
    ensures
        r == spec_sum(flatten_pools(pools@)),
{
    let mut flat: Vec<Capacity> = Vec::new();
    let mut i: usize = 0;
    while i < pools.len()
        invariant
            i <= pools@.len(),
            flat@ == flatten_pools(pools@.take(i as int)),
        decreases pools@.len() - i,
    {
        let server = &pools[i];
        let ghost before = flat@;
        let mut j: usize = 0;
        while j < server.len()
            invariant
                j <= server@.len(),
                flat@ == before + server@.take(j as int),
            decreases server@.len() - j,
        {
            flat.push(server[j]);
            proof {
                assert(server@.take(j + 1) =~= server@.take(j as int).push(server@[j as int]));
                assert(flat@ =~= before + server@.take(j + 1));
            }
            j = j + 1;
        }
        proof {
            assert(server@.take(j as int) =~= server@);
            assert(pools@.take(i + 1).drop_last() =~= pools@.take(i as int));
        }
        i = i + 1;
    }
    proof {
        assert(pools@.take(i as int) =~= pools@);
    }
    Capacity::sum(&flat)
}

} // verus!
