//! Who may run and who has to wait, with a limit that can change at any time.

use vstd::prelude::*;

verus! {

/// The permits of the tasks that run, and the queue of those that wait. A waiter
/// is whatever wakes the one that waits.
#[derive(Debug)]
pub struct Permits<W> {
    limit: usize,
    held: usize,
    waiting: Vec<W>,
}

/// What [`Permits`] are.
#[verifier::ext_equal]
pub struct PermitsModel<W> {
    /// How many may run at a time.
    pub limit: nat,
    /// How many run.
    pub held: nat,
    /// Who waits, the first to ask first.
    pub waiting: Seq<W>,
}

/// What happens to permits.
pub enum PermitEvent<W> {
    /// Someone asks for one.
    Ask(W),
    /// Someone gives one back.
    Release,
    /// There is a new limit.
    Limit(nat),
}

/// No one runs or waits.
pub open spec fn unused<W>(limit: nat) -> PermitsModel<W> {
    PermitsModel { limit, held: 0, waiting: Seq::empty() }
}

/// How many more may run.
pub open spec fn free<W>(p: PermitsModel<W>) -> nat {
    if p.held < p.limit {
        (p.limit - p.held) as nat
    } else {
        0
    }
}

/// How many of those who wait can go on.
pub open spec fn room<W>(p: PermitsModel<W>) -> nat {
    if free(p) < p.waiting.len() {
        free(p)
    } else {
        p.waiting.len()
    }
}

/// Lets as many go on as there is room for, and says who they are.
pub open spec fn settled<W>(p: PermitsModel<W>) -> (PermitsModel<W>, Seq<W>) {
    let n = room(p);
    (
        PermitsModel { held: p.held + n, waiting: p.waiting.skip(n as int), ..p },
        p.waiting.take(n as int),
    )
}

/// What an event does by itself, before anyone goes on.
pub open spec fn noted<W>(p: PermitsModel<W>, event: PermitEvent<W>) -> PermitsModel<W> {
    match event {
        PermitEvent::Ask(w) => PermitsModel { waiting: p.waiting.push(w), ..p },
        PermitEvent::Release => PermitsModel {
            held: if p.held > 0 {
                (p.held - 1) as nat
            } else {
                0
            },
            ..p
        },
        PermitEvent::Limit(limit) => PermitsModel { limit, ..p },
    }
}

/// Where an event leads, and who goes on because of it.
pub open spec fn permits_next<W>(p: PermitsModel<W>, event: PermitEvent<W>) -> (
    PermitsModel<W>,
    Seq<W>,
) {
    settled(noted(p, event))
}

/// Whether no one waits while there is room.
pub open spec fn busy<W>(p: PermitsModel<W>) -> bool {
    p.waiting.len() > 0 ==> p.held >= p.limit
}

impl<W> Permits<W> {
    /// What these permits are.
    pub closed spec fn model(&self) -> PermitsModel<W> {
        PermitsModel {
            limit: self.limit as nat,
            held: self.held as nat,
            waiting: self.waiting@,
        }
    }

    /// Permits that no one has asked for.
    pub fn new(limit: usize) -> (r: Permits<W>)
        ensures
            r.model() == unused::<W>(limit as nat),
    {
        Permits { limit, held: 0, waiting: Vec::new() }
    }

    /// Lets as many go on as there is room for.
    fn settle(&mut self) -> (r: Vec<W>)
        ensures
            (final(self).model(), r@) == settled(old(self).model()),
    {
        let free: usize = if self.held < self.limit {
            self.limit - self.held
        } else {
            0
        };
        let n: usize = if free < self.waiting.len() {
            free
        } else {
            self.waiting.len()
        };
        let ghost before = self.waiting@;
        let mut admitted = self.waiting.split_off(n);
        std::mem::swap(&mut admitted, &mut self.waiting);
        self.held = self.held + n;
        proof {
            assert(self.waiting@ =~= before.skip(n as int));
            assert(admitted@ =~= before.take(n as int));
        }
        admitted
    }

    /// Asks for a permit. Whoever is handed out may run, in that order; the one
    /// who asks waits for its turn otherwise.
    pub fn ask(&mut self, waiter: W) -> (r: Vec<W>)
        ensures
            (final(self).model(), r@) == permits_next(old(self).model(), PermitEvent::Ask(waiter)),
    {
        self.waiting.push(waiter);
        self.settle()
    }

    /// Gives a permit back. Whoever is handed out may run.
    pub fn release(&mut self) -> (r: Vec<W>)
        ensures
            (final(self).model(), r@) == permits_next(old(self).model(), PermitEvent::Release),
    {
        if self.held > 0 {
            self.held = self.held - 1;
        }
        self.settle()
    }

    /// Takes a new limit over. Whoever is handed out may run; whoever runs
    /// already goes on.
    pub fn set_limit(&mut self, limit: usize) -> (r: Vec<W>)
        ensures
            (final(self).model(), r@) == permits_next(
                old(self).model(),
                PermitEvent::Limit(limit as nat),
            ),
    {
        self.limit = limit;
        self.settle()
    }

    /// How many may run at a time.
    pub fn limit(&self) -> (r: usize)
        ensures
            r == self.model().limit,
    {
        self.limit
    }

    /// How many run.
    pub fn held(&self) -> (r: usize)
        ensures
            r == self.model().held,
    {
        self.held
    }

    /// How many wait.
    pub fn waiting(&self) -> (r: usize)
        ensures
            r == self.model().waiting.len(),
    {
        self.waiting.len()
    }
}

/// Where a history of events leads.
pub open spec fn permits_after<W>(
    p: PermitsModel<W>,
    history: Seq<PermitEvent<W>>,
) -> PermitsModel<W>
    decreases history.len(),
{
    if history.len() == 0 {
        p
    } else {
        permits_next(permits_after(p, history.drop_last()), history.last()).0
    }
}

/// Who went on in a history of events, in order.
pub open spec fn admitted<W>(p: PermitsModel<W>, history: Seq<PermitEvent<W>>) -> Seq<W>
    decreases history.len(),
{
    if history.len() == 0 {
        Seq::empty()
    } else {
        admitted(p, history.drop_last()) + permits_next(
            permits_after(p, history.drop_last()),
            history.last(),
        ).1
    }
}

/// Who asked in a history of events, in order.
pub open spec fn asked<W>(history: Seq<PermitEvent<W>>) -> Seq<W>
    decreases history.len(),
{
    if history.len() == 0 {
        Seq::empty()
    } else {
        match history.last() {
            PermitEvent::Ask(w) => asked(history.drop_last()).push(w),
            _ => asked(history.drop_last()),
        }
    }
}

/// How many permits were given back in a history of events.
pub open spec fn released<W>(p: PermitsModel<W>, history: Seq<PermitEvent<W>>) -> nat
    decreases history.len(),
{
    if history.len() == 0 {
        0
    } else {
        released(p, history.drop_last()) + if history.last() is Release && permits_after(
            p,
            history.drop_last(),
        ).held > 0 {
            1nat
        } else {
            0nat
        }
    }
}

/// The limit that a history of events ends with.
pub open spec fn last_limit<W>(limit: nat, history: Seq<PermitEvent<W>>) -> nat
    decreases history.len(),
{
    if history.len() == 0 {
        limit
    } else {
        match history.last() {
            PermitEvent::Limit(n) => n,
            _ => last_limit(limit, history.drop_last()),
        }
    }
}

/// Whether the limit stays the same through a history of events.
pub open spec fn keeps_limit<W>(history: Seq<PermitEvent<W>>) -> bool {
    forall|i: int| 0 <= i < history.len() ==> !((#[trigger] history[i]) is Limit)
}

/// However often the limit changes, the permits in use and those still to be had
/// are as many as the last limit says, unless more than that are in use. In use
/// are those that were handed out, less those that were given back.
pub proof fn law_permits_add_up<W>(limit: nat, history: Seq<PermitEvent<W>>)
    ensures
        ({
            let p = permits_after(unused::<W>(limit), history);
            &&& p.limit == last_limit(limit, history)
            &&& p.held + free(p) == if p.held > p.limit {
                p.held
            } else {
                last_limit(limit, history)
            }
            &&& p.held + released(unused::<W>(limit), history) == admitted(
                unused::<W>(limit),
                history,
            ).len()
        }),
    decreases history.len(),
{
    if history.len() > 0 {
        law_permits_add_up(limit, history.drop_last());
    }
}

/// No one waits while there is room: as many as the limit allows may run.
pub proof fn law_limit_is_used<W>(limit: nat, history: Seq<PermitEvent<W>>)
    ensures
        busy(permits_after(unused::<W>(limit), history)),
    decreases history.len(),
{
    if history.len() > 0 {
        law_limit_is_used(limit, history.drop_last());
    }
}

/// From one change of the limit to the next, no more run than the limit allows;
/// where more were running at the change, those finish first: no one goes on
/// until their number is below the limit.
pub proof fn law_limit_is_kept<W>(p: PermitsModel<W>, history: Seq<PermitEvent<W>>)
    requires
        keeps_limit(history),
    ensures
        ({
            let q = permits_after(p, history);
            &&& q.limit == p.limit
            &&& q.held <= p.limit || (q.held <= p.held && admitted(p, history).len() == 0)
        }),
    decreases history.len(),
{
    if history.len() > 0 {
        let earlier = history.drop_last();
        assert forall|i: int| 0 <= i < earlier.len() implies !(
        (#[trigger] earlier[i]) is Limit) by {
            assert(earlier[i] == history[i]);
        }
        law_limit_is_kept(p, earlier);
        assert(!(history[history.len() - 1] is Limit));
    }
}

/// A change of the limit stops no one who runs, and lets no one go on beyond it.
pub proof fn law_change_of_limit<W>(p: PermitsModel<W>, limit: nat)
    ensures
        ({
            let (q, gone_on) = permits_next(p, PermitEvent::Limit(limit));
            &&& q.limit == limit
            &&& q.held == p.held + gone_on.len()
            &&& gone_on.len() > 0 ==> q.held <= limit
        }),
{
}

/// Everyone who asks goes on or waits, and they go on in the order in which they
/// asked.
pub proof fn law_first_come_first_served<W>(limit: nat, history: Seq<PermitEvent<W>>)
    ensures
        admitted(unused::<W>(limit), history) + permits_after(unused::<W>(limit), history).waiting
            == asked(history),
    decreases history.len(),
{
    let start = unused::<W>(limit);
    if history.len() > 0 {
        let earlier = history.drop_last();
        law_first_come_first_served(limit, earlier);
        let p = permits_after(start, earlier);
        let between = noted(p, history.last());
        let (q, gone_on) = permits_next(p, history.last());
        assert(gone_on + q.waiting =~= between.waiting);
        assert(admitted(start, history) + q.waiting =~= admitted(start, earlier)
            + between.waiting);
        assert(admitted(start, earlier) + between.waiting =~= asked(history));
    } else {
        assert(admitted(start, history) + start.waiting =~= asked(history));
    }
}

} // verus!
