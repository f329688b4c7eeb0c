//! What a plugin asks of other plugins, and what a host limits for it.

use vstd::prelude::*;
use crate::version::Version;

verus! {

/// A request that a plugin makes for another plugin, or for several.
///
/// A `RequestCrucial` request must be fulfilled for the plugin to work at
/// all; a `RequestOptional` one may be denied, in which case some of its
/// functions are unavailable. Where several plugins may provide the same
/// functionality, `RequestEither` lists requests of which one has to be
/// fulfilled, and `RequestEach` lists requests that all have to be.
#[derive(Debug)]
pub enum InterplugRequest {
    /// A plugin of a given name and version; the functions with the given
    /// IDs need their dependencies fulfilled.
    PlugRequest {
        /// The string that identifies the plugin
        plugin: String,
        /// The IDs of the functions that need their dependencies fulfilled
        fn_ids: Vec<usize>,
        /// The version the provided plugin has to be compatible with
        version: Version,
    },
    /// Any implementor of a trait that a given plugin defines; the trait
    /// functions with the given (trait-local) IDs need their dependencies
    /// fulfilled.
    TraitRequest {
        /// The plugin that holds the trait definition
        plugin: String,
        /// The trait's name
        trait_name: String,
        /// Trait-local IDs of the functions that need their dependencies
        /// fulfilled
        fn_ids: Vec<usize>,
        /// The version of the plugin that holds the trait definition
        version: Version,
    },
    /// A plugin of a given name and version, with all of its functions'
    /// dependencies fulfilled.
    PlugRequestAll {
        /// The string that identifies the plugin
        plugin: String,
        /// The version the provided plugin has to be compatible with
        version: Version,
    },
    /// Any implementor of a trait that a given plugin defines, with all of
    /// its functions' dependencies fulfilled.
    TraitRequestAll {
        /// The plugin that holds the trait definition
        plugin: String,
        /// The trait's name
        trait_name: String,
        /// The version of the plugin that holds the trait definition
        version: Version,
    },
    /// Several requests, one of which must be fulfilled.
    RequestEither {
        /// The requests, one of which has to be fulfilled
        requests: Vec<InterplugRequest>,
    },
    /// Several requests, each of which must be fulfilled.
    RequestEach {
        /// The requests, all of which have to be fulfilled
        requests: Vec<InterplugRequest>,
    },
    /// A request that must be fulfilled for the plugin to work at all.
    RequestCrucial {
        /// The actual request
        request: Box<InterplugRequest>,
    },
    /// A request without which some functions of the plugin are
    /// unavailable.
    RequestOptional {
        /// The actual request
        request: Box<InterplugRequest>,
    },
}

/// A system limitation that a host sets for a plugin, or lifts.
#[derive(Clone, Debug)]
pub enum Limitation {
    /// Sets the greatest allowed value of a setting.
    Top {
        /// The name of the setting
        setting: String,
        /// The value it is limited to
        limit: isize,
    },
    /// Sets the least allowed value of a setting.
    Bottom {
        /// The name of the setting
        setting: String,
        /// The value it is limited to
        limit: isize,
    },
    /// Resets a setting to its default, as if the host had never set it.
    Reset {
        /// The name of the setting
        setting: String,
    },
}

/// `b` is a copy of `a`: the same variant, with the same names, versions
/// and function IDs, and with copies of the requests it holds. Function ID
/// lists are compared by their contents.
pub open spec fn request_copy(a: InterplugRequest, b: InterplugRequest) -> bool
    decreases a,
{
    match a {
        InterplugRequest::PlugRequest { plugin, fn_ids, version } => match b {
            InterplugRequest::PlugRequest { plugin: p, fn_ids: f, version: v } => plugin == p
                && fn_ids@ == f@ && version == v,
            _ => false,
        },
        InterplugRequest::TraitRequest { plugin, trait_name, fn_ids, version } => match b {
            InterplugRequest::TraitRequest { plugin: p, trait_name: t, fn_ids: f, version: v } =>
                plugin == p && trait_name == t && fn_ids@ == f@ && version == v,
            _ => false,
        },
        InterplugRequest::PlugRequestAll { plugin, version } => match b {
            InterplugRequest::PlugRequestAll { plugin: p, version: v } => plugin == p && version
                == v,
            _ => false,
        },
        InterplugRequest::TraitRequestAll { plugin, trait_name, version } => match b {
            InterplugRequest::TraitRequestAll { plugin: p, trait_name: t, version: v } => plugin
                == p && trait_name == t && version == v,
            _ => false,
        },
        InterplugRequest::RequestEither { requests } => match b {
            InterplugRequest::RequestEither { requests: rs } => {
                proof {
                    assert(decreases_to!(requests => requests@));
                }
                request_copies(requests@, rs@)
            },
            _ => false,
        },
        InterplugRequest::RequestEach { requests } => match b {
            InterplugRequest::RequestEach { requests: rs } => {
                proof {
                    assert(decreases_to!(requests => requests@));
                }
                request_copies(requests@, rs@)
            },
            _ => false,
        },
        InterplugRequest::RequestCrucial { request } => match b {
            InterplugRequest::RequestCrucial { request: r } => request_copy(*request, *r),
            _ => false,
        },
        InterplugRequest::RequestOptional { request } => match b {
            InterplugRequest::RequestOptional { request: r } => request_copy(*request, *r),
            _ => false,
        },
    }
}

/// `b` is a list of copies of the requests of `a`, in the same order.
pub open spec fn request_copies(a: Seq<InterplugRequest>, b: Seq<InterplugRequest>) -> bool
    decreases a,
{
    &&& a.len() == b.len()
    &&& a.len() > 0 ==> {
        proof {
            assert(decreases_to!(a => a[a.len() - 1]));
            assert(decreases_to!(a => a.subrange(0, a.len() - 1)));
        }
        request_copies(a.drop_last(), b.drop_last()) && request_copy(a.last(), b.last())
    }
}

/// Lists of copies are copies element by element.
pub proof fn lemma_request_copies_elementwise(a: Seq<InterplugRequest>, b: Seq<InterplugRequest>)
    requires
        request_copies(a, b),
    ensures
        a.len() == b.len(),
        forall|i: int| 0 <= i < a.len() ==> request_copy(#[trigger] a[i], b[i]),
    decreases a.len(),
{
    if a.len() > 0 {
        lemma_request_copies_elementwise(a.drop_last(), b.drop_last());
        assert forall|i: int| 0 <= i < a.len() implies request_copy(#[trigger] a[i], b[i]) by {
            if i < a.len() - 1 {
                assert(a.drop_last()[i] == a[i]);
                assert(b.drop_last()[i] == b[i]);
            }
        }
    }
}

/// A copy of a request is a request of the same kind, with the same
/// plugin, trait name, version and function IDs, and with as many copied
/// requests, each a copy of the request at the same position.
pub proof fn lemma_copy_keeps_request(a: InterplugRequest, b: InterplugRequest)
    requires
        request_copy(a, b),
    ensures
        a matches InterplugRequest::PlugRequest { plugin, fn_ids, version } ==> b matches
            InterplugRequest::PlugRequest { plugin: p, fn_ids: f, version: v } && p == plugin
            && f@ == fn_ids@ && v == version,
        a matches InterplugRequest::TraitRequest { plugin, trait_name, fn_ids, version } ==> b
            matches InterplugRequest::TraitRequest { plugin: p, trait_name: t, fn_ids: f, version: v }
            && p == plugin && t == trait_name && f@ == fn_ids@ && v == version,
        a matches InterplugRequest::PlugRequestAll { plugin, version } ==> b matches
            InterplugRequest::PlugRequestAll { plugin: p, version: v } && p == plugin && v
            == version,
        a matches InterplugRequest::TraitRequestAll { plugin, trait_name, version } ==> b matches
            InterplugRequest::TraitRequestAll { plugin: p, trait_name: t, version: v } && p
            == plugin && t == trait_name && v == version,
        a matches InterplugRequest::RequestEither { requests } ==> b matches
            InterplugRequest::RequestEither { requests: rs } && rs@.len() == requests@.len() && (
        forall|i: int| 0 <= i < requests@.len() ==> request_copy(#[trigger] requests@[i], rs@[i])),
        a matches InterplugRequest::RequestEach { requests } ==> b matches
            InterplugRequest::RequestEach { requests: rs } && rs@.len() == requests@.len() && (
        forall|i: int| 0 <= i < requests@.len() ==> request_copy(#[trigger] requests@[i], rs@[i])),
        a matches InterplugRequest::RequestCrucial { request } ==> b matches
            InterplugRequest::RequestCrucial { request: r } && request_copy(*request, *r),
        a matches InterplugRequest::RequestOptional { request } ==> b matches
            InterplugRequest::RequestOptional { request: r } && request_copy(*request, *r),
{
    match a {
        InterplugRequest::RequestEither { requests } => {
            if let InterplugRequest::RequestEither { requests: rs } = b {
                lemma_request_copies_elementwise(requests@, rs@);
            }
        },
        InterplugRequest::RequestEach { requests } => {
            if let InterplugRequest::RequestEach { requests: rs } = b {
                lemma_request_copies_elementwise(requests@, rs@);
            }
        },
        _ => {},
    }
}

/// Copies a list of requests, element by element.
fn clone_requests(requests: &Vec<InterplugRequest>) -> (r: Vec<InterplugRequest>)
    ensures
        request_copies(requests@, r@),
    decreases requests,
{
    let mut r: Vec<InterplugRequest> = Vec::new();
    let mut i: usize = 0;
    assert(requests@.take(0) =~= Seq::<InterplugRequest>::empty());
    while i < requests.len()
        invariant
            i <= requests.len(),
            request_copies(requests@.take(i as int), r@),
        decreases requests.len() - i,
    {
        proof {
            vstd::std_specs::vec::axiom_vec_index_decreases(*requests, i as int);
        }
        let c = requests[i].clone();
        let ghost before = r@;
        r.push(c);
        proof {
            assert(requests@.take(i + 1).drop_last() =~= requests@.take(i as int));
            assert(r@.drop_last() =~= before);
        }
        i = i + 1;
    }
    assert(requests@.take(i as int) =~= requests@);
    r
}

impl Clone for InterplugRequest {
    fn clone(&self) -> (r: Self)
        ensures
            request_copy(*self, r),
        decreases self,
    {
        match self {
            InterplugRequest::PlugRequest { plugin, fn_ids, version } => {
                let ids = fn_ids.clone();
                assert(ids@ =~= fn_ids@);
                InterplugRequest::PlugRequest { plugin: plugin.clone(), fn_ids: ids, version: *version }
            },
            InterplugRequest::TraitRequest { plugin, trait_name, fn_ids, version } => {
                let ids = fn_ids.clone();
                assert(ids@ =~= fn_ids@);
                InterplugRequest::TraitRequest {
                    plugin: plugin.clone(),
                    trait_name: trait_name.clone(),
                    fn_ids: ids,
                    version: *version,
                }
            },
            InterplugRequest::PlugRequestAll { plugin, version } => {
                InterplugRequest::PlugRequestAll { plugin: plugin.clone(), version: *version }
            },
            InterplugRequest::TraitRequestAll { plugin, trait_name, version } => {
                InterplugRequest::TraitRequestAll {
                    plugin: plugin.clone(),
                    trait_name: trait_name.clone(),
                    version: *version,
                }
            },
            InterplugRequest::RequestEither { requests } => {
                InterplugRequest::RequestEither { requests: clone_requests(requests) }
            },
            InterplugRequest::RequestEach { requests } => {
                InterplugRequest::RequestEach { requests: clone_requests(requests) }
            },
            InterplugRequest::RequestCrucial { request } => {
                InterplugRequest::RequestCrucial { request: Box::new((**request).clone()) }
            },
            InterplugRequest::RequestOptional { request } => {
                InterplugRequest::RequestOptional { request: Box::new((**request).clone()) }
            },
        }
    }
}

} // verus!
