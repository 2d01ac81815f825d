use vstd::prelude::*;
use crate::text::char_to_string;
use sha2::Digest;

verus! {

/// The search domains that `resolv_conf::Config::parse` reads from the
/// text of a resolver configuration: `None` where it refuses the text,
/// `Some(None)` where there is no search directive.
pub uninterp spec fn parsed_search_domains(conf: Seq<u8>) -> Option<Option<Seq<Seq<char>>>>;

/// Calls `resolv_conf::Config::parse` and keeps its search domains.
/// Trusted: the result is `parsed_search_domains` of the text.
#[verifier::external_body]
fn parse_search_domains(conf: &[u8]) -> (r: Option<Option<Vec<String>>>)
    ensures
        match (r, parsed_search_domains(conf@)) {
            (None, None) => true,
            (Some(None), Some(None)) => true,
            (Some(Some(v)), Some(Some(s))) => v@.map_values(|x: String| x@) == s,
            _ => false,
        },
{
    ::resolv_conf::Config::parse(conf).ok().map(|cfg| cfg.get_search().cloned())
}

/// The length of a text in UTF-8 bytes, as `str::len` gives it.
pub open spec fn byte_len(s: Seq<char>) -> usize {
    vstd::utf8::encode_utf8(s).len() as usize
}

/// `i` is the first of the shortest domains.
pub open spec fn spec_shortest(domains: Seq<Seq<char>>, i: int) -> bool {
    &&& 0 <= i < domains.len()
    &&& forall|j: int| 0 <= j < domains.len() ==> byte_len(domains[i]) <= byte_len(#[trigger] domains[j])
    &&& forall|j: int| 0 <= j < i ==> byte_len(domains[i]) < byte_len(#[trigger] domains[j])
}

/// The cluster domain used where the resolver names none.
pub open spec fn default_cluster_domain() -> Seq<char> {
    "ops.openark"@
}

/// Why the cluster domain could not be found.
#[derive(Debug)]
pub enum ClusterError {
    /// The resolver configuration does not parse.
    InvalidResolverConfig,
    /// The cluster has no kubeconfig to name it by.
    NoKubeConfig,
}

/// The cluster domain among the search domains of the resolver: the first
/// of the shortest, or `ops.openark` where there are none.
pub fn shortest_domain(domains: &Option<Vec<String>>) -> (r: String)
    ensures
        match domains {
            Some(v) => if v@.len() == 0 {
                r@ == default_cluster_domain()
            } else {
                exists|i: int| spec_shortest(v@.map_values(|x: String| x@), i) && r@ == v@[i]@
            },
            None => r@ == default_cluster_domain(),
        },
{
    let v = match domains {
        Some(v) => v,
        None => {
            proof {
                reveal_strlit("ops.openark");
            }
            return "ops.openark".to_owned();
        },
    };
    if v.len() == 0 {
        return "ops.openark".to_owned();
    }
    let ghost views = v@.map_values(|x: String| x@);
    let mut best: usize = 0;
    let mut best_len: usize = v[0].as_str().len();
    proof {
        assert(views[0] == v@[0]@);
    }
    let mut i: usize = 1;
    while i < v.len()
        invariant
            views == v@.map_values(|x: String| x@),
            1 <= i <= v@.len(),
            best < i,
            best_len == byte_len(views[best as int]),
            forall|j: int| 0 <= j < i ==> byte_len(views[best as int]) <= byte_len(#[trigger] views[j]),
            forall|j: int| 0 <= j < best ==> byte_len(views[best as int]) < byte_len(#[trigger] views[j]),
        decreases v@.len() - i,
    {
        let len = v[i].as_str().len();
        proof {
            assert(views[i as int] == v@[i as int]@);
        }
        if len < best_len {
            best = i;
            best_len = len;
        }
        i = i + 1;
    }
    proof {
        assert(spec_shortest(views, best as int));
    }
    v[best].clone()
}

/// The domain of the cluster, from the text of its resolver
/// configuration.
pub fn get_cluster_domain(conf: &[u8]) -> (r: Result<String, ClusterError>)
    ensures
        parsed_search_domains(conf@) is None <==> (r matches Err(ClusterError::InvalidResolverConfig)),
        parsed_search_domains(conf@) matches Some(search) ==> (r matches Ok(d) && match search {
            Some(s) => if s.len() == 0 {
                d@ == default_cluster_domain()
            } else {
                exists|i: int| spec_shortest(s, i) && d@ == s[i]
            },
            None => d@ == default_cluster_domain(),
        }),
{
    match parse_search_domains(conf) {
        None => Err(ClusterError::InvalidResolverConfig),
        Some(search) => Ok(shortest_domain(&search)),
    }
}

/// The SHA-256 digest of a text.
pub uninterp spec fn sha256_digest(data: Seq<u8>) -> Seq<u8>;

/// Calls `sha2::Sha256::digest`. Trusted: the digest is `sha256_digest` of
/// the data, and has 32 bytes.
#[verifier::external_body]
fn sha256(data: &[u8]) -> (r: [u8; 32])
    ensures
        r@ == sha256_digest(data@),
{
    ::sha2::Sha256::digest(data).into()
}

/// The lower-case hexadecimal digit of a nibble.
pub open spec fn hex_digit(n: u8) -> char {
    if n < 10 {
        ((n + 48) as u8) as char
    } else {
        ((n + 87) as u8) as char
    }
}

/// The lower-case hexadecimal text of bytes, two digits each.
pub open spec fn spec_hex(bytes: Seq<u8>) -> Seq<char>
    decreases bytes.len(),
{
    if bytes.len() == 0 {
        Seq::empty()
    } else {
        spec_hex(bytes.drop_last()) + seq![hex_digit(bytes.last() / 16), hex_digit(bytes.last() % 16)]
    }
}

fn hex_char(n: u8) -> (c: char)
    requires
        n < 16,
    ensures
        c == hex_digit(n),
{
    if n < 10 {
        (n + 48) as char
    } else {
        (n + 87) as char
    }
}

/// A lower-case hexadecimal digit.
pub open spec fn is_hex_digit(c: char) -> bool {
    ('0' <= c && c <= '9') || ('a' <= c && c <= 'f')
}

/// The text of bytes has two digits per byte, each a lower-case
/// hexadecimal digit.
pub proof fn lemma_hex_shape(bytes: Seq<u8>)
    ensures
        spec_hex(bytes).len() == 2 * bytes.len(),
        forall|i: int| 0 <= i < spec_hex(bytes).len() ==> is_hex_digit(#[trigger] spec_hex(bytes)[i]),
    decreases bytes.len(),
{
    if bytes.len() > 0 {
        lemma_hex_shape(bytes.drop_last());
        let hi = bytes.last() / 16;
        let lo = bytes.last() % 16;
        assert(is_hex_digit(hex_digit(hi)) && is_hex_digit(hex_digit(lo))) by {
            assert(hi < 16 && lo < 16);
            assert(hi < 10 ==> (hi + 48) as u8 as char == hex_digit(hi));
        }
        let h = spec_hex(bytes);
        let r = spec_hex(bytes.drop_last());
        assert forall|i: int| 0 <= i < h.len() implies is_hex_digit(#[trigger] h[i]) by {
            if i < r.len() {
                assert(h[i] == r[i]);
            }
        }
    }
}

/// The lower-case hexadecimal text of bytes.
pub fn hex(bytes: &[u8]) -> (s: String)
    ensures
        s@ == spec_hex(bytes@),
{
    let mut s = String::new();
    let mut i: usize = 0;
    while i < bytes.len()
        invariant
            i <= bytes@.len(),
            s@ == spec_hex(bytes@.take(i as int)),
        decreases bytes@.len() - i,
    {
        proof {
            assert(bytes@.take(i + 1).drop_last() =~= bytes@.take(i as int));
        }
        let b = bytes[i];
        let hi = char_to_string(hex_char(b / 16));
        let lo = char_to_string(hex_char(b % 16));
        s.append(hi.as_str());
        s.append(lo.as_str());
        proof {
            assert(s@ =~= spec_hex(bytes@.take(i + 1)));
        }
        i = i + 1;
    }
    proof {
        assert(bytes@.take(bytes@.len() as int) =~= bytes@);
    }
    s
}

/// The name of the cluster: the hexadecimal SHA-256 digest of its
/// kubeconfig, given as the bytes of the `kubeconfig` entry of the
/// `cluster-info` config map; 64 lower-case hexadecimal digits.
pub fn get_cluster_name(kubeconfig: Option<&[u8]>) -> (r: Result<String, ClusterError>)
    ensures
        kubeconfig is None ==> (r matches Err(ClusterError::NoKubeConfig)),
        kubeconfig matches Some(k) ==> (r matches Ok(name) && name@ == spec_hex(sha256_digest(k@))
            && name@.len() == 64 && forall|i: int| 0 <= i < 64 ==> is_hex_digit(#[trigger] name@[i])),
{
    match kubeconfig {
        None => Err(ClusterError::NoKubeConfig),
        Some(k) => {
            let digest = sha256(k);
            proof {
                assert(digest@.len() == 32);
                lemma_hex_shape(digest@);
            }
            Ok(hex(&digest))
        },
    }
}

} // verus!
