//! The fixed list of monitored sites, each driven on its own.
use vstd::prelude::*;
use crate::monitor::{step, ActionModel, EventModel, SiteAction, SiteMessage, SiteModel, SiteState};

verus! {

/// One transition of the site at `i`; the other sites are left alone.
pub open spec fn schedule_step(sites: Seq<SiteModel>, i: int, e: EventModel) -> (Seq<SiteModel>, ActionModel) {
    (sites.update(i, step(sites[i], e).0), step(sites[i], e).1)
}

/// The monitors of all configured sites.
pub struct Scheduler {
    pub sites: Vec<SiteState>,
}

impl Scheduler {
    pub open spec fn model(&self) -> Seq<SiteModel> {
        self.sites@.map_values(|s: SiteState| s.model())
    }

    /// One idle monitor without a snapshot for each `(name, url)` pair, in order.
    pub fn new(config: Vec<(String, String)>) -> (r: Scheduler)
        ensures
            r.model().len() == config@.len(),
            forall|i: int| 0 <= i < config@.len() ==> (#[trigger] r.model()[i]) == (SiteModel {
                name: config@[i].0@,
                href: config@[i].1@,
                in_flight: false,
                snapshot: None,
            }),
    {
        let mut sites: Vec<SiteState> = Vec::new();
        let mut rest = config;
        let n = rest.len();
        let ghost all = rest@;
        let mut k: usize = 0;
        while k < n
            invariant
                n == all.len(),
                k <= n,
                rest@ == all.subrange(k as int, n as int),
                sites@.len() == k,
                forall|i: int| 0 <= i < k ==> (#[trigger] sites@[i]).model() == (SiteModel {
                    name: all[i].0@,
                    href: all[i].1@,
                    in_flight: false,
                    snapshot: None,
                }),
            decreases n - k,
        {
            let (name, href) = rest.remove(0);
            sites.push(SiteState::new(name, href));
            assert(rest@ =~= all.subrange(k + 1, n as int));
            k = k + 1;
        }
        Scheduler { sites }
    }

    /// Hands `message` to the site at `i`.
    pub fn handle(&mut self, i: usize, message: SiteMessage) -> (r: SiteAction)
        requires
            i < old(self).sites.len(),
        ensures
            (final(self).model(), r.model()) == schedule_step(old(self).model(), i as int, message.model()),
    {
        let mut site = self.sites.remove(i);
        let r = site.handle_message(message);
        self.sites.insert(i, site);
        proof {
            assert(self.sites@ =~= old(self).sites@.update(i as int, site));
            assert(self.model() =~= old(self).model().update(i as int, site.model()));
        }
        r
    }
}

/// Sites are independent: whatever happens at one site, a failed fetch
/// included, every other site keeps its state, and a tick there has the
/// same effect as it had before.
pub proof fn lemma_sites_independent(sites: Seq<SiteModel>, i: int, j: int, e: EventModel)
    requires
        0 <= i < sites.len(),
        0 <= j < sites.len(),
        i != j,
    ensures
        schedule_step(sites, i, e).0[j] == sites[j],
        schedule_step(schedule_step(sites, i, e).0, j, EventModel::Check).1
            == schedule_step(sites, j, EventModel::Check).1,
{
}

} // verus!
