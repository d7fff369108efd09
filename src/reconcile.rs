//! The reconciliation loop as a state machine. Each tick takes the outcome of
//! one resolution and returns the plan that the loop carries out: the status
//! to publish, the changes to send to the endpoint pool, and the count to
//! publish. The loop itself (resolving, sending, sleeping) is the caller's.
use vstd::prelude::*;
use crate::address::IpAddress;
use crate::endpoint_template::{EndpointDescriptor, EndpointTemplate};
use crate::status::DnsStatus;
use crate::url_parts::UrlHost;

verus! {

/// What one tick asks of the loop, in this order: publish `status`, send an
/// insert for each descriptor of `inserts`, send a remove for each key of
/// `removes`, then publish `count`. A part that is `None` or empty is skipped.
#[derive(Debug)]
pub struct Plan {
    pub status: Option<DnsStatus>,
    pub inserts: Vec<EndpointDescriptor>,
    pub removes: Vec<IpAddress>,
    pub count: Option<usize>,
}

impl Plan {
    /// Nothing to publish and nothing to send.
    pub open spec fn is_empty(self) -> bool {
        &&& self.status is None
        &&& self.inserts@.len() == 0
        &&& self.removes@.len() == 0
        &&& self.count is None
    }

    /// No change for the endpoint pool.
    pub open spec fn is_quiet(self) -> bool {
        &&& self.inserts@.len() == 0
        &&& self.removes@.len() == 0
    }

    fn nothing() -> (r: Plan)
        ensures
            r.is_empty(),
    {
        Plan { status: None, inserts: Vec::new(), removes: Vec::new(), count: None }
    }
}

/// The keys of the descriptors to insert, in order.
pub open spec fn insert_keys(inserts: Seq<EndpointDescriptor>) -> Seq<IpAddress> {
    inserts.map_values(|d: EndpointDescriptor| d.address)
}

/// `inserts` and `removes` take the pool from the keys `old` to the keys
/// `new`: one insert for each key that came, one remove for each key that went.
pub open spec fn is_delta(
    inserts: Seq<IpAddress>,
    removes: Seq<IpAddress>,
    old: Set<IpAddress>,
    new: Set<IpAddress>,
) -> bool {
    &&& inserts.no_duplicates()
    &&& inserts.to_set() == new.difference(old)
    &&& removes.no_duplicates()
    &&& removes.to_set() == old.difference(new)
}

/// A plan that sends nothing, with the keys kept, is a delta too.
pub proof fn lemma_quiet_is_delta(plan: Plan, keys: Set<IpAddress>)
    requires
        plan.is_quiet(),
    ensures
        is_delta(insert_keys(plan.inserts@), plan.removes@, keys, keys),
{
    assert(insert_keys(plan.inserts@) =~= Seq::<IpAddress>::empty());
    assert(plan.removes@ =~= Seq::<IpAddress>::empty());
    assert(Seq::<IpAddress>::empty().to_set() =~= keys.difference(keys));
}

/// Whether `k` is one of `v`.
fn contains(v: &Vec<IpAddress>, k: IpAddress) -> (r: bool)
    ensures
        r == v@.contains(k),
{
    let mut i: usize = 0;
    while i < v.len()
        invariant
            i <= v.len(),
            forall|j: int| 0 <= j < i ==> v@[j] != k,
        decreases v.len() - i,
    {
        if v[i] == k {
            return true;
        }
        i = i + 1;
    }
    false
}

/// The addresses of `ips`, each once.
fn distinct(ips: Vec<IpAddress>) -> (r: Vec<IpAddress>)
    ensures
        r@.no_duplicates(),
        r@.to_set() == ips@.to_set(),
{
    let mut r: Vec<IpAddress> = Vec::new();
    let mut i: usize = 0;
    proof {
        assert(ips@.subrange(0, 0) =~= Seq::<IpAddress>::empty());
        assert(r@.to_set() =~= ips@.subrange(0, 0).to_set());
    }
    while i < ips.len()
        invariant
            i <= ips.len(),
            r@.no_duplicates(),
            r@.to_set() == ips@.subrange(0, i as int).to_set(),
        decreases ips.len() - i,
    {
        let k = ips[i];
        let ghost seen = ips@.subrange(0, i as int);
        let ghost before = r@;
        proof {
            assert(ips@.subrange(0, i + 1) =~= seen.push(k));
            seen.lemma_push_to_set_commute(k);
        }
        if !contains(&r, k) {
            r.push(k);
            proof {
                before.lemma_push_to_set_commute(k);
            }
        } else {
            assert(seen.to_set().insert(k) =~= seen.to_set());
        }
        i = i + 1;
    }
    assert(ips@.subrange(0, ips.len() as int) =~= ips@);
    r
}

/// The keys of `from` that are not in `other`, in the order of `from`.
fn keys_not_in(from: &Vec<IpAddress>, other: &Vec<IpAddress>) -> (r: Vec<IpAddress>)
    requires
        from@.no_duplicates(),
    ensures
        r@.no_duplicates(),
        r@.to_set() == from@.to_set().difference(other@.to_set()),
{
    let mut r: Vec<IpAddress> = Vec::new();
    let mut i: usize = 0;
    proof {
        assert(from@.subrange(0, 0) =~= Seq::<IpAddress>::empty());
        assert(r@.to_set() =~= from@.subrange(0, 0).to_set().difference(other@.to_set()));
    }
    while i < from.len()
        invariant
            i <= from.len(),
            from@.no_duplicates(),
            r@.no_duplicates(),
            r@.to_set() == from@.subrange(0, i as int).to_set().difference(other@.to_set()),
        decreases from.len() - i,
    {
        let k = from[i];
        let ghost seen = from@.subrange(0, i as int);
        let ghost before = r@;
        proof {
            assert(from@.subrange(0, i + 1) =~= seen.push(k));
            seen.lemma_push_to_set_commute(k);
            assert(!seen.contains(k));
        }
        if !contains(other, k) {
            r.push(k);
            proof {
                before.lemma_push_to_set_commute(k);
                assert(!before.to_set().contains(k));
                assert(r@.to_set() =~= seen.push(k).to_set().difference(other@.to_set()));
            }
        } else {
            assert(seen.push(k).to_set().difference(other@.to_set()) =~= seen.to_set().difference(
                other@.to_set(),
            ));
        }
        i = i + 1;
    }
    assert(from@.subrange(0, from.len() as int) =~= from@);
    r
}

/// One descriptor per key, built by `template`, in the order of `keys`.
fn describe_all(template: &EndpointTemplate, keys: &Vec<IpAddress>) -> (r: Vec<EndpointDescriptor>)
    ensures
        insert_keys(r@) == keys@,
        forall|i: int| 0 <= i < r@.len() ==> template.describes(#[trigger] r@[i].address, r@[i]),
{
    let mut r: Vec<EndpointDescriptor> = Vec::new();
    let mut i: usize = 0;
    while i < keys.len()
        invariant
            i <= keys.len(),
            r@.len() == i,
            forall|j: int| 0 <= j < i ==> (#[trigger] r@[j]).address == keys@[j],
            forall|j: int| 0 <= j < i ==> template.describes(#[trigger] r@[j].address, r@[j]),
        decreases keys.len() - i,
    {
        r.push(template.build(keys[i]));
        i = i + 1;
    }
    assert(insert_keys(r@) =~= keys@);
    r
}

/// The state of one reconciliation loop: the template it builds endpoints
/// from, the keys installed in the pool, the last status, and whether the
/// pool's consumer has gone away.
#[derive(Debug)]
pub struct Reconciler {
    template: EndpointTemplate,
    known: Vec<IpAddress>,
    status: DnsStatus,
    stopped: bool,
}

impl Reconciler {
    #[verifier::type_invariant]
    spec fn wf(self) -> bool {
        &&& self.known@.no_duplicates()
        &&& self.stopped ==> self.status == DnsStatus::Stopped
    }

    /// The keys installed in the pool.
    pub closed spec fn known_set(self) -> Set<IpAddress> {
        self.known@.to_set()
    }

    /// The status most recently published.
    pub closed spec fn current_status(self) -> DnsStatus {
        self.status
    }

    /// Whether the loop has stopped for good.
    pub closed spec fn stopped(self) -> bool {
        self.stopped
    }

    /// The template that endpoints are built from.
    pub closed spec fn template(self) -> EndpointTemplate {
        self.template
    }

    /// A running loop with no endpoint yet and status `Resolved`.
    pub fn new(template: EndpointTemplate) -> (r: Reconciler)
        ensures
            r.known_set() == Set::<IpAddress>::empty(),
            r.current_status() == DnsStatus::Resolved,
            !r.stopped(),
            r.template() == template,
    {
        let r = Reconciler {
            template,
            known: Vec::new(),
            status: DnsStatus::Resolved,
            stopped: false,
        };
        assert(r.known@.to_set() =~= Set::<IpAddress>::empty());
        r
    }

    /// The domain that each tick resolves.
    pub fn domain(&self) -> (r: &str)
        ensures
            (self.template().parts().host matches Some(UrlHost::Domain(d)) && r@ == d@),
    {
        self.template.domain()
    }

    /// Whether the loop should go on: false once the pool's consumer is gone.
    pub fn is_running(&self) -> (r: bool)
        ensures
            r == !self.stopped(),
    {
        !self.stopped
    }

    /// The status most recently published.
    pub fn status(&self) -> (r: &DnsStatus)
        ensures
            *r == self.current_status(),
    {
        &self.status
    }

    /// The number of keys installed in the pool.
    pub fn count(&self) -> (r: usize)
        ensures
            r == self.known_set().len(),
    {
        proof {
            use_type_invariant(self);
            self.known@.unique_seq_to_set();
        }
        self.known.len()
    }

    /// Whether `ip` is installed in the pool.
    pub fn is_known(&self, ip: IpAddress) -> (r: bool)
        ensures
            r == self.known_set().contains(ip),
    {
        contains(&self.known, ip)
    }

    /// One tick, given what the resolver returned. On success the status
    /// becomes `Resolved`, each address that came is inserted, each that went
    /// is removed, and the known keys become the resolved ones. On failure
    /// only the status changes, to `ResolutionError`. A stopped loop does
    /// nothing.
    pub fn tick(&mut self, outcome: Result<Vec<IpAddress>, String>) -> (plan: Plan)
        ensures
            final(self).template() == old(self).template(),
            is_delta(
                insert_keys(plan.inserts@),
                plan.removes@,
                old(self).known_set(),
                final(self).known_set(),
            ),
            old(self).stopped() ==> *final(self) == *old(self) && plan.is_empty(),
            !old(self).stopped() ==> !final(self).stopped(),
            !old(self).stopped() && outcome is Err ==> {
                &&& final(self).known_set() == old(self).known_set()
                &&& final(self).current_status() == (DnsStatus::ResolutionError {
                    details: outcome->Err_0,
                })
                &&& plan.status == Some(final(self).current_status())
                &&& plan.is_quiet()
                &&& plan.count is None
            },
            !old(self).stopped() && outcome is Ok ==> {
                &&& final(self).known_set() == outcome->Ok_0@.to_set()
                &&& final(self).current_status() == DnsStatus::Resolved
                &&& plan.status == Some(DnsStatus::Resolved)
                &&& is_delta(
                    insert_keys(plan.inserts@),
                    plan.removes@,
                    old(self).known_set(),
                    final(self).known_set(),
                )
                &&& forall|i: int|
                    0 <= i < plan.inserts@.len() ==> final(self).template().describes(
                        #[trigger] plan.inserts@[i].address,
                        plan.inserts@[i],
                    )
                &&& plan.count == Some(final(self).known_set().len() as usize)
            },
    {
        proof {
            use_type_invariant(&*self);
        }
        if self.stopped {
            let plan = Plan::nothing();
            proof {
                lemma_quiet_is_delta(plan, self.known_set());
            }
            return plan;
        }
        match outcome {
            Err(details) => {
                let status = DnsStatus::resolution_error(details);
                self.status = status.clone();
                let plan = Plan {
                    status: Some(status),
                    inserts: Vec::new(),
                    removes: Vec::new(),
                    count: None,
                };
                proof {
                    lemma_quiet_is_delta(plan, self.known_set());
                }
                plan
            },
            Ok(ips) => {
                let new_keys = distinct(ips);
                let added = keys_not_in(&new_keys, &self.known);
                let inserts = describe_all(&self.template, &added);
                let removes = keys_not_in(&self.known, &new_keys);
                let count = new_keys.len();
                proof {
                    new_keys@.unique_seq_to_set();
                }
                self.known = new_keys;
                self.status = DnsStatus::Resolved;
                Plan { status: Some(DnsStatus::Resolved), inserts, removes, count: Some(count) }
            },
        }
    }

    /// The pool's consumer has gone away: the loop stops for good and
    /// publishes `Stopped`, once.
    pub fn sink_closed(&mut self) -> (plan: Plan)
        ensures
            final(self).template() == old(self).template(),
            final(self).known_set() == old(self).known_set(),
            is_delta(
                insert_keys(plan.inserts@),
                plan.removes@,
                old(self).known_set(),
                final(self).known_set(),
            ),
            final(self).stopped(),
            final(self).current_status() == DnsStatus::Stopped,
            old(self).stopped() ==> *final(self) == *old(self) && plan.is_empty(),
            !old(self).stopped() ==> plan.status == Some(DnsStatus::Stopped) && plan.is_quiet()
                && plan.count is None,
    {
        proof {
            use_type_invariant(&*self);
        }
        if self.stopped {
            let plan = Plan::nothing();
            proof {
                lemma_quiet_is_delta(plan, self.known_set());
            }
            return plan;
        }
        self.status = DnsStatus::Stopped;
        self.stopped = true;
        let plan = Plan {
            status: Some(DnsStatus::Stopped),
            inserts: Vec::new(),
            removes: Vec::new(),
            count: None,
        };
        proof {
            lemma_quiet_is_delta(plan, self.known_set());
        }
        plan
    }
}

} // verus!
