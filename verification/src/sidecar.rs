//! The object-storage sidecar: an NGINX configuration that routes the
//! bucket of each ready binding to its storage.

use vstd::prelude::*;
use crate::api::model_storage_binding::{ModelStorageBindingState, ModelStorageBindingSyncPolicy};
use crate::api::storage::{ModelStorageKind, ModelStorageKindSpec, spec_endpoint, spec_to_kind};
use crate::text::{join, spec_join, views};

pub mod table;

verus! {

/// The command-line arguments of the sidecar.
pub struct Args {
    pub namespace: Option<String>,
    pub path: String,
}

impl Args {
    /// Where the configuration is written by default.
    pub fn default_path() -> (s: &'static str)
        ensures
            s@ == "/etc/nginx/nginx.conf.new"@,
    {
        "/etc/nginx/nginx.conf.new"
    }
}

/// What the sidecar reads of the status of a binding.
#[derive(Debug)]
pub struct RouteStatus {
    pub state: ModelStorageBindingState,
    pub storage_source: Option<ModelStorageKindSpec>,
    pub storage_sync_policy: Option<ModelStorageBindingSyncPolicy>,
    pub storage_target: Option<ModelStorageKindSpec>,
}

/// A binding as the sidecar sees it: its name, namespace and status.
#[derive(Debug)]
pub struct BindingRoute {
    pub name: String,
    pub namespace: Option<String>,
    pub status: Option<RouteStatus>,
}

/// A text without one trailing `/`.
pub open spec fn strip_slash(s: Seq<char>) -> Seq<char> {
    if s.len() > 0 && s.last() == '/' {
        s.drop_last()
    } else {
        s
    }
}

/// The route of a binding, where it has one: a ready binding to an object
/// storage is served from the endpoint of its source where it borrows the
/// source's bucket (its sync policy moves no data), else from that of its
/// target, in the binding's namespace or the default one.
pub open spec fn spec_route(b: BindingRoute, default_namespace: Seq<char>) -> Option<Seq<char>> {
    match b.status {
        None => None,
        Some(status) => match status.storage_target {
            None => None,
            Some(target) => if status.state != ModelStorageBindingState::Ready || spec_to_kind(target)
                != ModelStorageKind::ObjectStorage {
                None
            } else {
                let namespace = match b.namespace {
                    Some(n) => n@,
                    None => default_namespace,
                };
                let borrowed = match status.storage_sync_policy {
                    Some(p) => p.spec_is_none(),
                    None => false,
                };
                let kind = if borrowed {
                    status.storage_source
                } else {
                    Some(target)
                };
                match kind {
                    None => None,
                    Some(k) => match spec_endpoint(k, namespace) {
                        None => None,
                        Some(parts) => Some(
                            "location /"@ + b.name@ + " {\n            proxy_pass "@ + strip_slash(parts.0)
                                + ";\n        }"@,
                        ),
                    },
                }
            }
        },
    }
}

/// The routes of the bindings, in order, skipping those without one.
pub open spec fn spec_routes(bs: Seq<BindingRoute>, default_namespace: Seq<char>) -> Seq<Seq<char>>
    decreases bs.len(),
{
    if bs.len() == 0 {
        Seq::empty()
    } else {
        let rest = spec_routes(bs.drop_last(), default_namespace);
        match spec_route(bs.last(), default_namespace) {
            Some(r) => rest.push(r),
            None => rest,
        }
    }
}

/// The part of the configuration before the routes.
pub open spec fn conf_head() -> Seq<char> {
    "\nevents {\n    # worker_connections 1024;\n}\n\nhttp {\n    server {\n        listen 80;\n\n        # Enable header forwarding\n        proxy_pass_request_headers on;\n\n        # Disable NGINX headers\n        proxy_set_header Host $http_host;\n        proxy_set_header X-Real-IP $remote_addr;\n        proxy_set_header X-Forwarded-For $proxy_add_x_forwarded_for;\n        proxy_set_header X-Forwarded-Proto $scheme;\n\n        # Disable unneeded headers\n        proxy_hide_header X-Powered-By;\n        proxy_hide_header Server;\n\n        # Enable dataset routing\n        location / {\n            proxy_pass http://minio;\n        }\n        "@
}

/// The part of the configuration after the routes.
pub open spec fn conf_tail() -> Seq<char> {
    "\n    }\n}"@
}

fn strip_trailing_slash(s: &str) -> (r: String)
    ensures
        r@ == strip_slash(s@),
{
    let n = s.unicode_len();
    if n > 0 && s.get_char(n - 1) == '/' {
        let t = s.substring_char(0, n - 1);
        proof {
            assert(t@ =~= s@.drop_last());
        }
        t.to_owned()
    } else {
        s.to_owned()
    }
}

/// The route of one binding; see `spec_route`.
pub fn route(b: &BindingRoute, default_namespace: &str) -> (r: Option<String>)
    ensures
        match (r, spec_route(*b, default_namespace@)) {
            (Some(x), Some(y)) => x@ == y,
            (None, None) => true,
            _ => false,
        },
{
    let status = match &b.status {
        Some(s) => s,
        None => return None,
    };
    let target = match &status.storage_target {
        Some(t) => t,
        None => return None,
    };
    let ready = match status.state {
        ModelStorageBindingState::Ready => true,
        _ => false,
    };
    let is_object = match target.to_kind() {
        ModelStorageKind::ObjectStorage => true,
        _ => false,
    };
    if !ready || !is_object {
        return None;
    }
    let namespace: &str = match &b.namespace {
        Some(n) => n.as_str(),
        None => default_namespace,
    };
    let borrowed = match &status.storage_sync_policy {
        Some(p) => p.is_none(),
        None => false,
    };
    let kind = if borrowed {
        match &status.storage_source {
            Some(k) => k,
            None => return None,
        }
    } else {
        target
    };
    let url = match kind.endpoint(namespace) {
        Some(u) => u,
        None => return None,
    };
    let path = strip_trailing_slash(url.as_str());
    let mut s = "location /".to_owned();
    s.append(b.name.as_str());
    s.append(" {\n            proxy_pass ");
    s.append(path.as_str());
    s.append(";\n        }");
    Some(s)
}

/// The NGINX configuration of the sidecar: a server on port 80 that passes
/// the request headers on, hides the server's own, sends `/` to the
/// object storage, and routes each bucket as `spec_route` says, the
/// bindings taken in the order given (that of their names).
pub fn build_nginx_conf(default_namespace: &str, bindings: &Vec<BindingRoute>) -> (s: String)
    ensures
        s@ == conf_head() + spec_join(spec_routes(bindings@, default_namespace@), "\n        "@) + conf_tail(),
{
    let mut routes: Vec<String> = Vec::new();
    let mut i: usize = 0;
    while i < bindings.len()
        invariant
            i <= bindings@.len(),
            views(routes@) == spec_routes(bindings@.take(i as int), default_namespace@),
        decreases bindings@.len() - i,
    {
        proof {
            assert(bindings@.take(i + 1).drop_last() =~= bindings@.take(i as int));
        }
        match route(&bindings[i], default_namespace) {
            Some(r) => {
                routes.push(r);
                proof {
                    assert(views(routes@) =~= spec_routes(bindings@.take(i as int), default_namespace@).push(
                        routes@.last()@,
                    ));
                }
            },
            None => {},
        }
        i = i + 1;
    }
    proof {
        assert(bindings@.take(bindings@.len() as int) =~= bindings@);
    }
    let body = join(&routes, "\n        ");
    let mut s = "\nevents {\n    # worker_connections 1024;\n}\n\nhttp {\n    server {\n        listen 80;\n\n        # Enable header forwarding\n        proxy_pass_request_headers on;\n\n        # Disable NGINX headers\n        proxy_set_header Host $http_host;\n        proxy_set_header X-Real-IP $remote_addr;\n        proxy_set_header X-Forwarded-For $proxy_add_x_forwarded_for;\n        proxy_set_header X-Forwarded-Proto $scheme;\n\n        # Disable unneeded headers\n        proxy_hide_header X-Powered-By;\n        proxy_hide_header Server;\n\n        # Enable dataset routing\n        location / {\n            proxy_pass http://minio;\n        }\n        ".to_owned();
    s.append(body.as_str());
    s.append("\n    }\n}");
    s
}

/// Only ready bindings to object storages are routed.
pub proof fn lemma_only_ready_object_bindings_are_routed(b: BindingRoute, default_namespace: Seq<char>)
    ensures
        spec_route(b, default_namespace) is Some ==> (b.status matches Some(s) && s.state
            == ModelStorageBindingState::Ready && (s.storage_target matches Some(t) && spec_to_kind(t)
            == ModelStorageKind::ObjectStorage)),
{
}

} // verus!
