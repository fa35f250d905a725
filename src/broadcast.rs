//! Publish-once, consume-many distribution of the compiled module.

use vstd::prelude::*;

verus! {

/// One subscriber's view of the distribution.
#[derive(Clone, Copy, Debug, PartialEq, Eq, Structural)]
pub struct Subscriber {
    /// It subscribed before the module was published.
    pub early: bool,
    /// It has taken the module.
    pub received: bool,
}

#[derive(Clone, Copy, Debug, PartialEq, Eq, Structural)]
pub enum BroadcastError {
    /// Publishing found nobody subscribed.
    NoSubscribers,
    /// The module was already published.
    AlreadyPublished,
}

pub ghost struct BroadcastState {
    pub subscribers: Seq<Subscriber>,
    pub published: Option<u64>,
}

/// A single-use broadcast of one module, named by an id: every subscriber
/// that joined before publication takes it exactly once; one that joins
/// after never sees it.
#[derive(Debug)]
pub struct ModuleBroadcast {
    pub subscribers: Vec<Subscriber>,
    pub published: Option<u64>,
}

impl View for ModuleBroadcast {
    type V = BroadcastState;

    open spec fn view(&self) -> BroadcastState {
        BroadcastState { subscribers: self.subscribers@, published: self.published }
    }
}

pub open spec fn spec_subscribe(st: BroadcastState) -> BroadcastState {
    BroadcastState {
        subscribers: st.subscribers.push(Subscriber { early: st.published is None, received: false }),
        ..st
    }
}

pub open spec fn spec_publish(st: BroadcastState, module: u64) -> Result<BroadcastState, BroadcastError> {
    if st.published is Some {
        Err(BroadcastError::AlreadyPublished)
    } else if st.subscribers.len() == 0 {
        Err(BroadcastError::NoSubscribers)
    } else {
        Ok(BroadcastState { published: Some(module), ..st })
    }
}

/// What subscriber `id` takes, and the state after.
pub open spec fn spec_receive(st: BroadcastState, id: nat) -> (Option<u64>, BroadcastState) {
    if id < st.subscribers.len() && st.published is Some && st.subscribers[id as int].early
        && !st.subscribers[id as int].received {
        (
            st.published,
            BroadcastState {
                subscribers: st.subscribers.update(
                    id as int,
                    Subscriber { early: true, received: true },
                ),
                ..st
            },
        )
    } else {
        (None, st)
    }
}

impl ModuleBroadcast {
    pub fn new() -> (r: ModuleBroadcast)
        ensures
            r@.subscribers.len() == 0,
            r@.published is None,
    {
        ModuleBroadcast { subscribers: Vec::new(), published: None }
    }

    /// Adds a subscriber and returns its id.
    pub fn subscribe(&mut self) -> (id: usize)
        requires
            old(self)@.subscribers.len() < usize::MAX,
        ensures
            id == old(self)@.subscribers.len(),
            final(self)@ == spec_subscribe(old(self)@),
    {
        let early = self.published.is_none();
        self.subscribers.push(Subscriber { early, received: false });
        self.subscribers.len() - 1
    }

    /// Publishes `module` to everyone subscribed so far, and returns how
    /// many they are.
    pub fn publish(&mut self, module: u64) -> (r: Result<usize, BroadcastError>)
        ensures
            match spec_publish(old(self)@, module) {
                Ok(st) => r == Ok::<usize, BroadcastError>(old(self)@.subscribers.len() as usize)
                    && final(self)@ == st,
                Err(e) => r == Err::<usize, BroadcastError>(e) && final(self)@ == old(self)@,
            },
    {
        if self.published.is_some() {
            return Err(BroadcastError::AlreadyPublished);
        }
        if self.subscribers.len() == 0 {
            return Err(BroadcastError::NoSubscribers);
        }
        self.published = Some(module);
        Ok(self.subscribers.len())
    }

    /// Takes the module for subscriber `id`, if it is owed one.
    pub fn receive(&mut self, id: usize) -> (r: Option<u64>)
        ensures
            (r, final(self)@) == spec_receive(old(self)@, id as nat),
    {
        if id < self.subscribers.len() && self.published.is_some() && self.subscribers[id].early
            && !self.subscribers[id].received {
            self.subscribers.set(id, Subscriber { early: true, received: true });
            self.published
        } else {
            None
        }
    }
}

/// Every subscriber that joined before publication takes the published
/// module, the same one, on its first receive, and nothing on any later one.
pub proof fn lemma_delivered_exactly_once(st: BroadcastState, module: u64, id: nat)
    requires
        st.published is None,
        id < st.subscribers.len(),
        forall|k: int| 0 <= k < st.subscribers.len() ==> (#[trigger] st.subscribers[k]).early
            && !st.subscribers[k].received,
    ensures
        spec_publish(st, module) matches Ok(st1) && spec_receive(st1, id).0 == Some(module)
            && spec_receive(spec_receive(st1, id).1, id).0 is None,
{
}

/// A subscriber that joins after publication never takes the module,
/// whatever it or others do next.
pub proof fn lemma_late_subscriber_never_receives(st: BroadcastState, later: Seq<nat>)
    requires
        st.published is Some,
    ensures
        ({
            let s1 = spec_subscribe(st);
            let id = st.subscribers.len();
            forall|k: int| 0 <= k < later.len() ==> spec_receive(
                #[trigger] receive_all(s1, later.subrange(0, k)),
                id,
            ).0 is None
        }),
{
    let s1 = spec_subscribe(st);
    let id = st.subscribers.len();
    assert forall|k: int| 0 <= k < later.len() implies spec_receive(
        #[trigger] receive_all(s1, later.subrange(0, k)),
        id,
    ).0 is None by {
        lemma_receive_all_keeps_late(s1, later.subrange(0, k), id);
    }
}

/// The state after the receives of `ids`, in order.
pub open spec fn receive_all(st: BroadcastState, ids: Seq<nat>) -> BroadcastState
    decreases ids.len(),
{
    if ids.len() == 0 {
        st
    } else {
        receive_all(spec_receive(st, ids[0]).1, ids.drop_first())
    }
}

proof fn lemma_receive_all_keeps_late(st: BroadcastState, ids: Seq<nat>, id: nat)
    requires
        id < st.subscribers.len(),
        !st.subscribers[id as int].early,
    ensures
        id < receive_all(st, ids).subscribers.len(),
        !receive_all(st, ids).subscribers[id as int].early,
    decreases ids.len(),
{
    if ids.len() > 0 {
        lemma_receive_all_keeps_late(spec_receive(st, ids[0]).1, ids.drop_first(), id);
    }
}

} // verus!
