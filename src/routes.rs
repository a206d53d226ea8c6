//! The guard chains of the entry endpoints that read no body. Each request
//! gets a fresh error slot; the guards run in their declared order and the
//! first rejection ends the chain, to be rendered by the catcher.
use vstd::prelude::*;

use crate::entries::{catch_reply, handle_bad_request_errors};
use crate::errors::{DetailView, ErrorMessage};
use crate::namespace::{judge_namespace, namespace_source, opt_str, Namespace};
use crate::outcome::GuardOutcome;
use crate::pagination::{judge_page_size, PageSize};
use crate::responders::CustomResponder;

verus! {

pub open spec fn opt_query(q: Option<Option<&str>>) -> Option<Option<Seq<char>>> {
    match q {
        Some(v) => Some(opt_str(v)),
        None => None,
    }
}

/// The verdict of the namespace guard followed by the page-size guard.
pub open spec fn listing_verdict(
    ns_header: Option<Seq<char>>,
    ns_query: Option<Option<Seq<char>>>,
    ps_header: Option<Seq<char>>,
    ps_query: Option<Seq<char>>,
) -> Result<(Seq<char>, u16), DetailView> {
    match judge_namespace(namespace_source(ns_header, ns_query)) {
        Err(d) => Err(d),
        Ok(ns) => match judge_page_size(ps_header, ps_query) {
            Err(d) => Err(d),
            Ok(n) => Ok((ns, n)),
        },
    }
}

/// The guards of an endpoint that needs a namespace only (lookup or deletion
/// by id, deletion of a namespace): the namespace, or the error reply.
pub fn guard_namespace(ns_header: Option<&str>, ns_query: Option<Option<&str>>) -> (r: Result<Namespace, CustomResponder>)
    ensures
        match judge_namespace(namespace_source(opt_str(ns_header), opt_query(ns_query))) {
            Ok(ns) => r is Ok && r->Ok_0@ == ns && r->Ok_0.wf(),
            Err(d) => r is Err && r->Err_0@ == catch_reply(Some(d)),
        },
{
    let mut ctx = ErrorMessage::new();
    match Namespace::from_request(ns_header, ns_query, &mut ctx) {
        GuardOutcome::Accept(ns) => Ok(ns),
        _ => Err(handle_bad_request_errors(&ctx)),
    }
}

/// The guards of the listing endpoint: the namespace, then the page size.
pub fn guard_listing(
    ns_header: Option<&str>,
    ns_query: Option<Option<&str>>,
    ps_header: Option<&str>,
    ps_query: Option<&str>,
) -> (r: Result<(Namespace, PageSize), CustomResponder>)
    ensures
        match listing_verdict(opt_str(ns_header), opt_query(ns_query), opt_str(ps_header), opt_str(ps_query)) {
            Ok((ns, n)) => r is Ok && r->Ok_0.0@ == ns && r->Ok_0.1@ == n && r->Ok_0.0.wf()
                && r->Ok_0.1.wf(),
            Err(d) => r is Err && r->Err_0@ == catch_reply(Some(d)),
        },
{
    let mut ctx = ErrorMessage::new();
    match Namespace::from_request(ns_header, ns_query, &mut ctx) {
        GuardOutcome::Accept(ns) => match PageSize::from_request(ps_header, ps_query, &mut ctx) {
            GuardOutcome::Accept(size) => Ok((ns, size)),
            _ => Err(handle_bad_request_errors(&ctx)),
        },
        _ => Err(handle_bad_request_errors(&ctx)),
    }
}

/// Sending the same malformed listing request again yields the same error
/// code and message: the reply depends on the request alone, and a request
/// that fails both guards is answered with the namespace error, the first
/// one met.
pub proof fn lemma_listing_error_reproducible(
    ns_header: Option<Seq<char>>,
    ns_query: Option<Option<Seq<char>>>,
    ps_header: Option<Seq<char>>,
    ps_query: Option<Seq<char>>,
    again_ns_header: Option<Seq<char>>,
    again_ns_query: Option<Option<Seq<char>>>,
    again_ps_header: Option<Seq<char>>,
    again_ps_query: Option<Seq<char>>,
)
    requires
        ns_header == again_ns_header,
        ns_query == again_ns_query,
        ps_header == again_ps_header,
        ps_query == again_ps_query,
        listing_verdict(ns_header, ns_query, ps_header, ps_query) is Err,
    ensures
        listing_verdict(again_ns_header, again_ns_query, again_ps_header, again_ps_query) is Err,
        catch_reply(Some(listing_verdict(ns_header, ns_query, ps_header, ps_query)->Err_0))
            == catch_reply(
            Some(listing_verdict(again_ns_header, again_ns_query, again_ps_header, again_ps_query)->Err_0),
        ),
        judge_namespace(namespace_source(ns_header, ns_query)) is Err ==> listing_verdict(
            ns_header,
            ns_query,
            ps_header,
            ps_query,
        )->Err_0 == judge_namespace(namespace_source(ns_header, ns_query))->Err_0,
{
}

} // verus!
