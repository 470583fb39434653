//! The router: the first route, in registry order, whose prefix begins the
//! request path. Nothing is matched loosely, no route is a fallback, and a
//! longer prefix listed later never displaces a shorter one listed before it.

use vstd::prelude::*;
use crate::config::ServiceConfig;
use crate::error::GatewayError;
use crate::text::starts_with;

verus! {

/// A route claims a path when its prefix begins the path, byte for byte. A
/// prefix need not end where a path segment ends.
pub open spec fn claims(service: ServiceConfig, path: Seq<char>) -> bool {
    service.path@.is_prefix_of(path)
}

/// Route `i` claims the path and no route listed before it does.
pub open spec fn is_first_claim(path: Seq<char>, services: Seq<ServiceConfig>, i: int) -> bool {
    &&& 0 <= i < services.len()
    &&& claims(services[i], path)
    &&& forall|j: int| 0 <= j < i ==> !claims(#[trigger] services[j], path)
}

/// No route claims the path.
pub open spec fn no_claim(path: Seq<char>, services: Seq<ServiceConfig>) -> bool {
    forall|j: int| 0 <= j < services.len() ==> !claims(#[trigger] services[j], path)
}

/// Finds the position of the route that serves `path`.
pub fn find_service(path: &str, services: &[ServiceConfig]) -> (found: Option<usize>)
    ensures
        match found {
            Some(i) => is_first_claim(path@, services@, i as int),
            None => no_claim(path@, services@),
        },
{
    let mut i: usize = 0;
    while i < services.len()
        invariant
            i <= services@.len(),
            forall|j: int| 0 <= j < i ==> !claims(#[trigger] services@[j], path@),
        decreases services@.len() - i,
    {
        if starts_with(path, services[i].path.as_str()) {
            return Some(i);
        }
        i += 1;
    }
    None
}

/// Finds the route that serves `path`: the first one listed whose prefix
/// begins the path, or `None` when no prefix does.
pub fn get_service_config<'a>(
    path: &str,
    services: &'a [ServiceConfig],
) -> (found: Option<&'a ServiceConfig>)
    ensures
        match found {
            Some(service) => exists|i: int|
                #[trigger] is_first_claim(path@, services@, i) && *service == services@[i],
            None => no_claim(path@, services@),
        },
{
    match find_service(path, services) {
        Some(i) => Some(&services[i]),
        None => None,
    }
}

/// Routes `path`: the route that serves it, or the routing miss when no
/// route claims it.
pub fn route<'a>(
    path: &str,
    services: &'a [ServiceConfig],
) -> (routed: Result<&'a ServiceConfig, GatewayError>)
    ensures
        match routed {
            Ok(service) => exists|i: int|
                #[trigger] is_first_claim(path@, services@, i) && *service == services@[i],
            Err(error) => error == GatewayError::RoutingMiss && no_claim(path@, services@),
        },
{
    match get_service_config(path, services) {
        Some(service) => Ok(service),
        None => Err(GatewayError::RoutingMiss),
    }
}

/// A path has at most one first claim: routing is deterministic.
pub proof fn lemma_first_claim_unique(path: Seq<char>, services: Seq<ServiceConfig>, i: int, j: int)
    requires
        is_first_claim(path, services, i),
        is_first_claim(path, services, j),
    ensures
        i == j,
{
}

/// Every path is either claimed first by some route or claimed by none.
pub proof fn lemma_claimed_or_not(path: Seq<char>, services: Seq<ServiceConfig>)
    ensures
        no_claim(path, services) || exists|i: int| is_first_claim(path, services, i),
    decreases services.len(),
{
    if services.len() > 0 {
        let earlier = services.drop_last();
        lemma_claimed_or_not(path, earlier);
        assert forall|j: int| 0 <= j < earlier.len() implies #[trigger] services[j] == earlier[j] by {}
        if exists|i: int| is_first_claim(path, earlier, i) {
            let i = choose|i: int| is_first_claim(path, earlier, i);
            assert(is_first_claim(path, services, i));
        } else if claims(services.last(), path) {
            assert(is_first_claim(path, services, services.len() - 1));
        }
    }
}

/// In a registry whose routes all have a prefix, no route claims the empty
/// path.
pub proof fn lemma_empty_path_unclaimed(services: Seq<ServiceConfig>)
    requires
        forall|i: int| 0 <= i < services.len() ==> (#[trigger] services[i]).wf(),
    ensures
        no_claim(Seq::<char>::empty(), services),
{
}

/// The registry with the routes at `i` and `j` exchanged.
pub open spec fn exchanged(services: Seq<ServiceConfig>, i: int, j: int) -> Seq<ServiceConfig> {
    services.update(i, services[j]).update(j, services[i])
}

/// Listed order decides precedence. When two routes both claim a path and
/// nothing before the earlier one does, the earlier one is the match; exchange
/// the two and the other one is.
pub proof fn lemma_listed_order_decides(
    path: Seq<char>,
    services: Seq<ServiceConfig>,
    i: int,
    j: int,
)
    requires
        0 <= i < j < services.len(),
        claims(services[i], path),
        claims(services[j], path),
        forall|k: int| 0 <= k < i ==> !claims(#[trigger] services[k], path),
    ensures
        is_first_claim(path, services, i),
        is_first_claim(path, exchanged(services, i, j), i),
        exchanged(services, i, j)[i] == services[j],
{
}

} // verus!
