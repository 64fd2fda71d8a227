use vstd::prelude::*;
use vstd::string::StringExecFns;

verus! {

/// One routing-table entry, reduced to what candidate resolution reads:
/// the address family, the destination prefix length and the gateway
/// address rendered as text.
pub struct RouteInfo {
    pub is_ipv4: bool,
    pub prefix_len: u8,
    pub gateway: Option<String>,
}

/// The mathematical shape of a routing-table entry.
pub struct RouteInfoV {
    pub is_ipv4: bool,
    pub prefix_len: int,
    pub gateway: Option<Seq<char>>,
}

impl View for RouteInfo {
    type V = RouteInfoV;

    open spec fn view(&self) -> RouteInfoV {
        RouteInfoV {
            is_ipv4: self.is_ipv4,
            prefix_len: self.prefix_len as int,
            gateway: match self.gateway {
                Some(g) => Some(g@),
                None => None,
            },
        }
    }
}

impl DeepView for RouteInfo {
    type V = RouteInfoV;

    open spec fn deep_view(&self) -> RouteInfoV {
        self.view()
    }
}

/// Relies on `netroute::list_routes`: reads the system routing table. What
/// comes back depends on the machine's state, so nothing is promised of it.
#[verifier::external_body]
fn query_routes() -> Result<Vec<RouteInfo>, String> {
    match netroute::list_routes() {
        Ok(routes) => Ok(
            routes
                .into_iter()
                .map(|r| RouteInfo {
                    is_ipv4: matches!(r.family, netroute::RouteFamily::Ipv4),
                    prefix_len: r.destination.prefix_len,
                    gateway: r.gateway.map(|g| g.to_string()),
                })
                .collect(),
        ),
        Err(e) => Err(e.to_string()),
    }
}

/// The candidate a route contributes: the gateway of an IPv4 default
/// route (destination prefix length zero), nothing otherwise.
pub open spec fn route_candidate(r: RouteInfoV) -> Option<Seq<char>> {
    match r.gateway {
        Some(g) => if r.is_ipv4 && r.prefix_len == 0 {
            Some(g)
        } else {
            None
        },
        None => None,
    }
}

/// `hosts` with `h` appended, unless `h` is already present.
pub open spec fn add_unique(hosts: Seq<Seq<char>>, h: Seq<char>) -> Seq<Seq<char>> {
    if hosts.contains(h) {
        hosts
    } else {
        hosts.push(h)
    }
}

/// The candidates the routing entries add to `acc`, in table order, the
/// first occurrence of each host kept.
pub open spec fn collect_gateways(acc: Seq<Seq<char>>, routes: Seq<RouteInfoV>) -> Seq<Seq<char>>
    decreases routes.len(),
{
    if routes.len() == 0 {
        acc
    } else {
        let acc2 = match route_candidate(routes[0]) {
            Some(g) => add_unique(acc, g),
            None => acc,
        };
        collect_gateways(acc2, routes.drop_first())
    }
}

/// The resolved candidate list for a routing table: the gateways of IPv4
/// default routes in table order with duplicates dropped, then the two
/// fixed fallback hosts unless already present.
pub open spec fn spec_resolve(routes: Seq<RouteInfoV>) -> Seq<Seq<char>> {
    add_unique(
        add_unique(collect_gateways(Seq::empty(), routes), "192.168.124.1"@),
        "moshujia.cn"@,
    )
}

/// Whether no host occurs twice.
pub open spec fn distinct_hosts(hosts: Seq<Seq<char>>) -> bool {
    forall|i: int, j: int| 0 <= i < j < hosts.len() ==> hosts[i] != hosts[j]
}

/// Whether a host is among the hosts in `hosts`.
fn contains_host(hosts: &Vec<String>, h: &String) -> (r: bool)
    ensures
        r == hosts.deep_view().contains(h@),
{
    let n = hosts.len();
    let mut i: usize = 0;
    while i < n
        invariant
            i <= n,
            n == hosts.len(),
            forall|k: int| 0 <= k < i ==> hosts.deep_view()[k] != h@,
        decreases n - i,
    {
        if hosts[i] == *h {
            proof {
                assert(hosts.deep_view()[i as int] == h@);
            }
            return true;
        }
        i += 1;
    }
    proof {
        assert(!hosts.deep_view().contains(h@)) by {
            if hosts.deep_view().contains(h@) {
                let k = choose|k: int|
                    0 <= k < hosts.deep_view().len() && hosts.deep_view()[k] == h@;
                assert(hosts.deep_view()[k] != h@);
            }
        }
    }
    false
}

/// Appends `h` unless it is already present.
fn push_unique(hosts: &mut Vec<String>, h: String)
    ensures
        final(hosts).deep_view() == add_unique(old(hosts).deep_view(), h@),
{
    if !contains_host(hosts, &h) {
        hosts.push(h);
        proof {
            assert(hosts.deep_view() =~= old(hosts).deep_view().push(h@));
        }
    }
}

/// Step lemma: collecting over a table extended by one route applies that
/// route's contribution last.
proof fn lemma_collect_snoc(acc: Seq<Seq<char>>, routes: Seq<RouteInfoV>, r: RouteInfoV)
    ensures
        collect_gateways(acc, routes.push(r)) == (match route_candidate(r) {
            Some(g) => add_unique(collect_gateways(acc, routes), g),
            None => collect_gateways(acc, routes),
        }),
    decreases routes.len(),
{
    if routes.len() == 0 {
        assert(routes.push(r)[0] == r);
        assert(routes.push(r).drop_first() =~= routes);
        let acc2 = match route_candidate(r) {
            Some(g) => add_unique(acc, g),
            None => acc,
        };
        assert(collect_gateways(acc, routes.push(r)) == collect_gateways(acc2, routes));
        assert(collect_gateways(acc2, routes) == acc2);
    } else {
        assert(routes.push(r)[0] == routes[0]);
        assert(routes.push(r).drop_first() =~= routes.drop_first().push(r));
        let acc2 = match route_candidate(routes[0]) {
            Some(g) => add_unique(acc, g),
            None => acc,
        };
        assert(collect_gateways(acc, routes.push(r)) == collect_gateways(
            acc2,
            routes.drop_first().push(r),
        ));
        assert(collect_gateways(acc, routes) == collect_gateways(acc2, routes.drop_first()));
        lemma_collect_snoc(acc2, routes.drop_first(), r);
    }
}

/// Builds the ordered candidate list. Explicit hosts, when given, are the
/// entire result, verbatim; otherwise the routing entries contribute the
/// gateways of IPv4 default routes in table order without duplicates, and
/// the two fixed fallback hosts are appended unless already present. A
/// failed routing query is represented by an empty `routes` list, which
/// leaves exactly the fallbacks.
pub fn resolve_candidates(explicit: Vec<String>, routes: &Vec<RouteInfo>) -> (r: Vec<String>)
    ensures
        explicit.len() > 0 ==> r.deep_view() == explicit.deep_view(),
        explicit.len() == 0 ==> r.deep_view() == spec_resolve(routes.deep_view()),
{
    if explicit.len() > 0 {
        return explicit;
    }
    let mut hosts: Vec<String> = Vec::new();
    let n = routes.len();
    let mut i: usize = 0;
    proof {
        assert(hosts.deep_view() =~= Seq::<Seq<char>>::empty());
        assert(routes.deep_view().take(0) =~= Seq::<RouteInfoV>::empty());
    }
    while i < n
        invariant
            i <= n,
            n == routes.len(),
            hosts.deep_view() == collect_gateways(
                Seq::empty(),
                routes.deep_view().take(i as int),
            ),
        decreases n - i,
    {
        let route = &routes[i];
        if route.is_ipv4 && route.prefix_len == 0 {
            match &route.gateway {
                Some(g) => push_unique(&mut hosts, g.clone()),
                None => {},
            }
        }
        proof {
            lemma_collect_snoc(
                Seq::empty(),
                routes.deep_view().take(i as int),
                routes.deep_view()[i as int],
            );
            assert(routes.deep_view().take(i as int + 1) =~= routes.deep_view().take(
                i as int,
            ).push(routes.deep_view()[i as int]));
        }
        i += 1;
    }
    proof {
        assert(routes.deep_view().take(n as int) =~= routes.deep_view());
    }
    push_unique(&mut hosts, String::from_str("192.168.124.1"));
    push_unique(&mut hosts, String::from_str("moshujia.cn"));
    hosts
}

/// Membership and distinctness facts about one `add_unique` step.
proof fn lemma_add_unique(hosts: Seq<Seq<char>>, h: Seq<char>)
    ensures
        distinct_hosts(hosts) ==> distinct_hosts(add_unique(hosts, h)),
        add_unique(hosts, h).contains(h),
        forall|x: Seq<char>| hosts.contains(x) ==> add_unique(hosts, h).contains(x),
{
    if !hosts.contains(h) {
        let pushed = hosts.push(h);
        assert(pushed[pushed.len() - 1] == h);
        assert forall|x: Seq<char>| hosts.contains(x) implies pushed.contains(x) by {
            let k = choose|k: int| 0 <= k < hosts.len() && hosts[k] == x;
            assert(pushed[k] == x);
        }
        if distinct_hosts(hosts) {
            assert forall|i: int, j: int| 0 <= i < j < pushed.len() implies pushed[i]
                != pushed[j] by {
                if j == pushed.len() - 1 {
                    assert(pushed[i] == hosts[i]);
                    if hosts[i] == h {
                        assert(hosts.contains(h));
                    }
                }
            }
        }
    } else {
        let k = choose|k: int| 0 <= k < hosts.len() && hosts[k] == h;
        assert(add_unique(hosts, h)[k] == h);
    }
}

/// Collecting keeps the list duplicate-free and never drops a host.
proof fn lemma_collect_distinct(acc: Seq<Seq<char>>, routes: Seq<RouteInfoV>)
    ensures
        distinct_hosts(acc) ==> distinct_hosts(collect_gateways(acc, routes)),
        forall|x: Seq<char>|
            acc.contains(x) ==> collect_gateways(acc, routes).contains(x),
    decreases routes.len(),
{
    if routes.len() == 0 {
    } else {
        match route_candidate(routes[0]) {
            Some(g) => {
                lemma_add_unique(acc, g);
                lemma_collect_distinct(add_unique(acc, g), routes.drop_first());
            },
            None => {
                lemma_collect_distinct(acc, routes.drop_first());
            },
        }
    }
}

/// Law: the resolved candidate list never holds a host twice, and both
/// fallback hosts are always present, whatever the routing table held.
pub proof fn lemma_resolve_distinct(routes: Seq<RouteInfoV>)
    ensures
        distinct_hosts(spec_resolve(routes)),
        spec_resolve(routes).contains("192.168.124.1"@),
        spec_resolve(routes).contains("moshujia.cn"@),
{
    let collected = collect_gateways(Seq::empty(), routes);
    lemma_collect_distinct(Seq::empty(), routes);
    lemma_add_unique(collected, "192.168.124.1"@);
    lemma_add_unique(add_unique(collected, "192.168.124.1"@), "moshujia.cn"@);
}

/// Law: resolution is a pure function of the routing state: the same
/// entries give the same ordered candidate list.
pub proof fn lemma_resolve_deterministic(r1: Seq<RouteInfoV>, r2: Seq<RouteInfoV>)
    requires
        r1 == r2,
    ensures
        spec_resolve(r1) == spec_resolve(r2),
{
}

/// Discovers candidates from the live routing table: the gateways of IPv4
/// default routes in table order, then the fixed fallbacks. A failed
/// routing query is non-fatal and leaves exactly the fallbacks.
pub fn list_possible_gateways() -> (r: Vec<String>)
    ensures
        distinct_hosts(r.deep_view()),
        r.deep_view().contains("192.168.124.1"@),
        r.deep_view().contains("moshujia.cn"@),
        r.len() > 0,
{
    let routes = match query_routes() {
        Ok(rs) => rs,
        Err(_) => Vec::new(),
    };
    let r = resolve_candidates(Vec::new(), &routes);
    proof {
        lemma_resolve_distinct(routes.deep_view());
        assert(r.deep_view().len() == r.len());
    }
    r
}

} // verus!
