//! The single-slot broadcast of the latest status: one writer, any number of
//! readers, no history.
//!
//! Every publication gets the next version number. A subscriber remembers the
//! version that it saw last; what it observes is always the current slot, so
//! it may skip versions but never goes back.
//!
//! The slot is a plain value. Tasks that share it keep it behind a lock that
//! is held for one call at a time, so the writer never waits for a reader
//! that is slow to pick up what it observed. Waking the readers after a
//! publication is left to the writer's side.

use crate::model::{ServerStatus, ServerStatusView};
use vstd::prelude::*;

verus! {

/// View of a [`Broadcast`]: the current value and the number of publications
/// so far.
pub ghost struct BroadcastView {
    pub current: Option<ServerStatusView>,
    pub version: nat,
}

/// The broadcast after `status` has been published into it.
pub open spec fn after_publish(slot: BroadcastView, status: ServerStatusView) -> BroadcastView {
    BroadcastView { current: Some(status), version: slot.version + 1 }
}

/// Whether a subscriber that saw version `seen` last has something new to
/// observe.
pub open spec fn has_news(slot: BroadcastView, seen: nat) -> bool {
    seen != slot.version
}

/// What holds of every slot: it holds a status exactly if something was
/// published.
pub open spec fn is_coherent(slot: BroadcastView) -> bool {
    slot.current is Some <==> slot.version > 0
}

/// The view of an optional status.
pub open spec fn status_view(status: Option<ServerStatus>) -> Option<ServerStatusView> {
    match status {
        Some(status) => Some(status@),
        None => None,
    }
}

/// The slot that holds the latest status.
pub struct Broadcast {
    slot: Option<ServerStatus>,
    version: u64,
}

impl View for Broadcast {
    type V = BroadcastView;

    closed spec fn view(&self) -> BroadcastView {
        BroadcastView { current: status_view(self.slot), version: self.version as nat }
    }
}

/// A reader's handle. Its view is the version that the reader saw last, zero
/// for a reader that has seen nothing.
pub struct Subscriber {
    seen: u64,
}

impl View for Subscriber {
    type V = nat;

    closed spec fn view(&self) -> nat {
        self.seen as nat
    }
}

impl Broadcast {
    #[verifier::type_invariant]
    spec fn well_formed(self) -> bool {
        self.slot is Some <==> self.version > 0
    }

    /// An empty slot: nothing was published yet.
    pub fn new() -> (broadcast: Broadcast)
        ensures
            broadcast@ == (BroadcastView { current: None, version: 0 }),
    {
        Broadcast { slot: None, version: 0 }
    }

    /// Replaces the current value by `status`; the value before is gone.
    pub fn publish(&mut self, status: ServerStatus)
        requires
            old(self)@.version < u64::MAX,
        ensures
            final(self)@ == after_publish(old(self)@, status@),
    {
        *self = Broadcast { slot: Some(status), version: self.version + 1 };
    }

    /// A handle for a new reader. The reader has seen nothing: whatever was
    /// published before counts as news for it.
    pub fn subscribe(&self) -> (subscriber: Subscriber)
        ensures
            subscriber@ == 0,
    {
        Subscriber { seen: 0 }
    }

    /// The number of publications so far.
    pub fn version(&self) -> (version: u64)
        ensures
            version == self@.version,
            is_coherent(self@),
    {
        proof {
            use_type_invariant(self);
        }
        self.version
    }

    /// Whether the slot was written since `subscriber` observed it last.
    pub fn has_changed(&self, subscriber: &Subscriber) -> (changed: bool)
        ensures
            changed == has_news(self@, subscriber@),
    {
        subscriber.seen != self.version
    }

    /// The current value, which `subscriber` has seen from now on. There is
    /// one unless nothing was published yet.
    pub fn observe(&self, subscriber: &mut Subscriber) -> (status: Option<ServerStatus>)
        ensures
            status_view(status) == self@.current,
            final(subscriber)@ == self@.version,
            is_coherent(self@),
    {
        subscriber.seen = self.version;
        self.current()
    }

    /// The current value, for a reader that keeps no handle. There is one
    /// unless nothing was published yet.
    pub fn current(&self) -> (status: Option<ServerStatus>)
        ensures
            status_view(status) == self@.current,
            is_coherent(self@),
    {
        proof {
            use_type_invariant(self);
        }
        match &self.slot {
            Some(status) => Some(status.clone()),
            None => None,
        }
    }
}

/// One step in the life of a slot and its subscribers.
pub ghost enum SlotOp {
    /// The writer publishes a status.
    Publish(ServerStatusView),
    /// The subscriber with this number observes the slot.
    Observe(int),
}

/// A slot together with the versions that its subscribers have seen.
pub ghost struct Scene {
    pub slot: BroadcastView,
    pub seen: Seq<nat>,
}

/// The scene after one step. A publication touches the slot alone; an
/// observation brings the observer, and nobody else, up to the slot's version.
pub open spec fn after_op(scene: Scene, op: SlotOp) -> Scene {
    match op {
        SlotOp::Publish(status) => Scene {
            slot: after_publish(scene.slot, status),
            seen: scene.seen,
        },
        SlotOp::Observe(who) => if 0 <= who < scene.seen.len() {
            Scene { slot: scene.slot, seen: scene.seen.update(who, scene.slot.version) }
        } else {
            scene
        },
    }
}

/// The scene after a sequence of steps, the first one first.
pub open spec fn after_ops(scene: Scene, ops: Seq<SlotOp>) -> Scene
    decreases ops.len(),
{
    if ops.len() == 0 {
        scene
    } else {
        after_ops(after_op(scene, ops[0]), ops.drop_first())
    }
}

/// Whether no subscriber has seen a version that the slot has not reached.
pub open spec fn in_step(scene: Scene) -> bool {
    forall|i: int| 0 <= i < scene.seen.len() ==> scene.seen[i] <= scene.slot.version
}

/// Steps taken one after the other are the steps of the whole sequence.
pub proof fn lemma_after_ops_then(scene: Scene, ops: Seq<SlotOp>, op: SlotOp)
    ensures
        after_ops(scene, ops.push(op)) == after_op(after_ops(scene, ops), op),
    decreases ops.len(),
{
    let all = ops.push(op);
    if ops.len() == 0 {
        assert(all[0] == op);
        assert(all.drop_first() == Seq::<SlotOp>::empty());
        assert(after_ops(after_op(scene, op), all.drop_first()) == after_op(scene, op));
    } else {
        assert(all[0] == ops[0]);
        assert(all.drop_first() == ops.drop_first().push(op));
        lemma_after_ops_then(after_op(scene, ops[0]), ops.drop_first(), op);
    }
}

/// Whatever happens, in whatever order and with however many subscribers,
/// no subscriber goes back: the version that each has seen never falls, nor
/// does the slot's, and no subscriber gets ahead of the slot.
pub proof fn lemma_recency_never_goes_back(scene: Scene, ops: Seq<SlotOp>)
    requires
        in_step(scene),
    ensures
        in_step(after_ops(scene, ops)),
        after_ops(scene, ops).seen.len() == scene.seen.len(),
        after_ops(scene, ops).slot.version >= scene.slot.version,
        forall|i: int|
            0 <= i < scene.seen.len() ==> after_ops(scene, ops).seen[i] >= scene.seen[i],
    decreases ops.len(),
{
    if ops.len() > 0 {
        let next = after_op(scene, ops[0]);
        assert(in_step(next));
        assert(next.seen.len() == scene.seen.len());
        assert forall|i: int| 0 <= i < scene.seen.len() implies next.seen[i] >= scene.seen[i] by {}
        lemma_recency_never_goes_back(next, ops.drop_first());
        assert forall|i: int| 0 <= i < scene.seen.len() implies after_ops(scene, ops).seen[i]
            >= scene.seen[i] by {
            assert(after_ops(next, ops.drop_first()).seen[i] >= next.seen[i]);
        }
    }
}

/// Once a status is published, a subscriber that observes the slot at any
/// later time, whatever happened in between, has seen a version at least as
/// recent as that publication, which is more recent than any it had seen
/// before.
pub proof fn lemma_observer_catches_up(
    scene: Scene,
    status: ServerStatusView,
    between: Seq<SlotOp>,
    who: int,
)
    requires
        in_step(scene),
        0 <= who < scene.seen.len(),
    ensures
        after_ops(
            after_op(scene, SlotOp::Publish(status)),
            between.push(SlotOp::Observe(who)),
        ).seen[who] >= after_op(scene, SlotOp::Publish(status)).slot.version > scene.seen[who],
{
    let published = after_op(scene, SlotOp::Publish(status));
    lemma_after_ops_then(published, between, SlotOp::Observe(who));
    lemma_recency_never_goes_back(published, between);
}

/// What a subscriber observes right after a publication is the status that
/// was published.
pub proof fn lemma_publication_is_observed(scene: Scene, status: ServerStatusView)
    ensures
        after_op(scene, SlotOp::Publish(status)).slot.current == Some(status),
        forall|seen: nat|
            seen <= scene.slot.version ==> has_news(
                #[trigger] after_publish(scene.slot, status),
                seen,
            ),
{
}

/// Of two statuses published one after the other, a subscriber that
/// observes only afterwards gets the second: the first is skipped, not
/// queued.
pub proof fn lemma_latest_wins(
    slot: BroadcastView,
    first: ServerStatusView,
    second: ServerStatusView,
)
    ensures
        after_publish(after_publish(slot, first), second).current == Some(second),
        after_publish(after_publish(slot, first), second).version == slot.version + 2,
{
}

} // verus!
