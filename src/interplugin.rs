//! Requests one plugin makes for the capabilities of another, and the
//! system limitations a host passes to its plugins.

use vstd::prelude::*;
use crate::version::Version;

verus! {

/// A capability that a plugin needs before it can work, in full or in
/// part. Resolving it is left to the host; this is only its shape.
#[derive(Debug)]
pub enum InterplugRequest {
    /// The functions `fn_ids` of the named plugin, at least at `version`.
    PlugRequest {
        /// Name of the plugin
        plugin: String,
        /// Functions whose dependencies must be met
        fn_ids: Vec<usize>,
        /// Oldest acceptable version
        version: Version,
    },
    /// The functions `fn_ids` (local to the trait) of an implementor of
    /// trait `trait_id` of the named plugin.
    TraitRequest {
        /// Name of the plugin that defines the trait
        plugin: String,
        /// Trait identifier
        trait_id: usize,
        /// Trait-local ids of the functions whose dependencies must be met
        fn_ids: Vec<usize>,
        /// Oldest acceptable version
        version: Version,
    },
    /// All functions of the named plugin.
    PlugRequestAll {
        /// Name of the plugin
        plugin: String,
        /// Oldest acceptable version
        version: Version,
    },
    /// All functions of an implementor of the trait.
    TraitRequestAll {
        /// Name of the plugin that defines the trait
        plugin: String,
        /// Trait identifier
        trait_id: usize,
        /// Oldest acceptable version
        version: Version,
    },
    /// Met when any one of `requests` is met.
    RequestEither {
        /// The alternatives
        requests: Vec<InterplugRequest>,
    },
    /// Met when every one of `requests` is met.
    RequestEach {
        /// The parts
        requests: Vec<InterplugRequest>,
    },
    /// The plugin cannot work at all without this request.
    RequestCrucial {
        /// The request
        request: Box<InterplugRequest>,
    },
    /// Without this request some functions are unavailable.
    RequestOptional {
        /// The request
        request: Box<InterplugRequest>,
    },
}

/// `c` is a copy of the request tree `r`: the same variant, fields and
/// children, each child a copy.
pub open spec fn request_copy(c: InterplugRequest, r: InterplugRequest) -> bool
    decreases r,
{
    match r {
        InterplugRequest::PlugRequest { plugin, fn_ids, version } => match c {
            InterplugRequest::PlugRequest { plugin: p, fn_ids: f, version: v } => p == plugin
                && f@ == fn_ids@ && v == version,
            _ => false,
        },
        InterplugRequest::TraitRequest { plugin, trait_id, fn_ids, version } => match c {
            InterplugRequest::TraitRequest { plugin: p, trait_id: t, fn_ids: f, version: v } => p
                == plugin && t == trait_id && f@ == fn_ids@ && v == version,
            _ => false,
        },
        InterplugRequest::PlugRequestAll { plugin, version } => match c {
            InterplugRequest::PlugRequestAll { plugin: p, version: v } => p == plugin && v == version,
            _ => false,
        },
        InterplugRequest::TraitRequestAll { plugin, trait_id, version } => match c {
            InterplugRequest::TraitRequestAll { plugin: p, trait_id: t, version: v } => p == plugin
                && t == trait_id && v == version,
            _ => false,
        },
        InterplugRequest::RequestEither { requests } => match c {
            InterplugRequest::RequestEither { requests: q } => requests_copy(q@, requests@),
            _ => false,
        },
        InterplugRequest::RequestEach { requests } => match c {
            InterplugRequest::RequestEach { requests: q } => requests_copy(q@, requests@),
            _ => false,
        },
        InterplugRequest::RequestCrucial { request } => match c {
            InterplugRequest::RequestCrucial { request: q } => request_copy(*q, *request),
            _ => false,
        },
        InterplugRequest::RequestOptional { request } => match c {
            InterplugRequest::RequestOptional { request: q } => request_copy(*q, *request),
            _ => false,
        },
    }
}

/// `c` holds, in order, copies of the request trees of `r`.
pub open spec fn requests_copy(c: Seq<InterplugRequest>, r: Seq<InterplugRequest>) -> bool
    decreases r,
{
    c.len() == r.len() && (r.len() > 0 ==> requests_copy(c.drop_last(), r.drop_last()) && request_copy(
        c.last(),
        r.last(),
    ))
}

/// Copies a request tree, children first.
fn clone_request(r: &InterplugRequest) -> (c: InterplugRequest)
    ensures
        request_copy(c, *r),
    decreases r,
{
    match r {
        InterplugRequest::PlugRequest { plugin, fn_ids, version } => InterplugRequest::PlugRequest {
            plugin: plugin.clone(),
            fn_ids: fn_ids.clone(),
            version: *version,
        },
        InterplugRequest::TraitRequest { plugin, trait_id, fn_ids, version } =>
            InterplugRequest::TraitRequest {
            plugin: plugin.clone(),
            trait_id: *trait_id,
            fn_ids: fn_ids.clone(),
            version: *version,
        },
        InterplugRequest::PlugRequestAll { plugin, version } => InterplugRequest::PlugRequestAll {
            plugin: plugin.clone(),
            version: *version,
        },
        InterplugRequest::TraitRequestAll { plugin, trait_id, version } =>
            InterplugRequest::TraitRequestAll {
            plugin: plugin.clone(),
            trait_id: *trait_id,
            version: *version,
        },
        InterplugRequest::RequestEither { requests } => InterplugRequest::RequestEither {
            requests: clone_requests(requests),
        },
        InterplugRequest::RequestEach { requests } => InterplugRequest::RequestEach {
            requests: clone_requests(requests),
        },
        InterplugRequest::RequestCrucial { request } => InterplugRequest::RequestCrucial {
            request: Box::new(clone_request(request)),
        },
        InterplugRequest::RequestOptional { request } => InterplugRequest::RequestOptional {
            request: Box::new(clone_request(request)),
        },
    }
}

/// Copies a list of request trees, in order.
pub(crate) fn clone_requests(v: &Vec<InterplugRequest>) -> (c: Vec<InterplugRequest>)
    ensures
        requests_copy(c@, v@),
    decreases v,
{
    broadcast use vstd::std_specs::vec::axiom_vec_index_decreases;

    let mut c: Vec<InterplugRequest> = Vec::new();
    let mut i: usize = 0;
    while i < v.len()
        invariant
            i <= v.len(),
            requests_copy(c@, v@.subrange(0, i as int)),
        decreases v.len() - i,
    {
        let ghost before = c@;
        c.push(clone_request(&v[i]));
        assert(c@.drop_last() =~= before);
        assert(v@.subrange(0, i + 1).drop_last() =~= v@.subrange(0, i as int));
        i += 1;
    }
    assert(v@.subrange(0, v.len() as int) =~= v@);
    c
}

impl Clone for InterplugRequest {
    fn clone(&self) -> (r: Self)
        ensures
            request_copy(r, *self),
    {
        clone_request(self)
    }
}

/// A system limitation that a host sets or lifts for a plugin.
#[derive(Clone, Debug)]
pub enum Limitation {
    /// Upper bound of a setting
    Top {
        /// Name of the setting
        setting: String,
        /// The bound
        limit: isize,
    },
    /// Lower bound of a setting
    Bottom {
        /// Name of the setting
        setting: String,
        /// The bound
        limit: isize,
    },
    /// Back to the plugin's own default
    Reset {
        /// Name of the setting
        setting: String,
    },
}

} // verus!
