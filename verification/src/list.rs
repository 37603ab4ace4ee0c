use vstd::prelude::*;

use crate::cli_options::ListOpts;
use crate::error::PulsarCatError;
use vstd::string::StringExecFns;

verus! {

/// What the listing operation will do: show one topic's partitions, or
/// enumerate the topics of a namespace.
#[derive(Debug, Clone, PartialEq, Eq)]
pub enum ListPlan {
    Partitions(String),
    Topics(String),
}

/// The message reported when the listing options name neither or both of a
/// topic and a namespace.
pub open spec fn list_usage_msg() -> Seq<char> {
    "You must provide either a topic or a namespace."@
}

/// Decides the listing operation from the options: a topic alone means
/// partition lookup, a namespace alone means topic enumeration, and
/// anything else is a configuration error.
pub fn plan_list(opts: &ListOpts) -> (r: Result<ListPlan, PulsarCatError>)
    ensures
        (opts.topic is Some && opts.namespace is None) ==> (r matches Ok(p) && (
        p matches ListPlan::Partitions(pt) && pt@ == opts.topic->Some_0@)),
        (opts.namespace is Some && opts.topic is None) ==> (r matches Ok(p) && (
        p matches ListPlan::Topics(n) && n@ == opts.namespace->Some_0@)),
        ((opts.topic is Some) == (opts.namespace is Some)) ==> (r matches Err(e) && (
        e matches PulsarCatError::Application(m) && m@ == list_usage_msg())),
{
    match (&opts.topic, &opts.namespace) {
        (Some(t), None) => Ok(ListPlan::Partitions(t.clone())),
        (None, Some(ns)) => Ok(ListPlan::Topics(ns.clone())),
        _ => Err(
            PulsarCatError::Application("You must provide either a topic or a namespace.".to_owned()),
        ),
    }
}

/// One partition's broker address, rendered `url:` with `(via proxy)`
/// appended when the lookup answer goes through a proxy.
pub fn format_partition_info(url: &str, proxy: bool) -> (r: String)
    ensures
        r@ == url@ + ":"@ + (if proxy {
            "(via proxy)"@
        } else {
            Seq::<char>::empty()
        }),
{
    let mut s = url.to_owned();
    s.append(":");
    if proxy {
        s.append("(via proxy)");
    }
    proof {
        assert(url@ + ":"@ + Seq::<char>::empty() =~= url@ + ":"@);
    }
    s
}

} // verus!
