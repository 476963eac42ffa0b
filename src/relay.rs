//! The single viewer slot and the relay's per-frame routing decision.
use vstd::prelude::*;

verus! {

/// Where one frame goes, given by the number of the viewer that receives it.
///
/// Viewers are numbered from one in the order their sinks are installed.
pub ghost enum Delivery {
    /// The frame is written to the sink of this viewer.
    Send(nat),
    /// No sink is installed: the frame is dropped.
    Discard,
}

/// Something that happens to the relay.
pub ghost enum RelayEvent {
    /// A new viewer's sink is installed.
    Install,
    /// A frame is taken off the queue and routed.
    Frame,
}

/// Where a frame goes after `installs` sinks have been installed.
pub open spec fn delivery(installs: nat) -> Delivery {
    if installs == 0 {
        Delivery::Discard
    } else {
        Delivery::Send(installs)
    }
}

/// Where each frame among `events` goes, in order, starting after `installs` installs.
pub open spec fn deliveries(installs: nat, events: Seq<RelayEvent>) -> Seq<Delivery>
    decreases events.len(),
{
    if events.len() == 0 {
        Seq::empty()
    } else {
        match events[0] {
            RelayEvent::Install => deliveries(installs + 1, events.drop_first()),
            RelayEvent::Frame => seq![delivery(installs)] + deliveries(installs, events.drop_first()),
        }
    }
}

/// `count` frames in a row.
pub open spec fn frames(count: nat) -> Seq<RelayEvent> {
    Seq::new(count, |i: int| RelayEvent::Frame)
}

/// Frames routed with no event in between all go where the first one goes.
pub proof fn lemma_frames_share_target(installs: nat, count: nat)
    ensures
        deliveries(installs, frames(count)) == Seq::new(count, |i: int| delivery(installs)),
    decreases count,
{
    if count > 0 {
        lemma_frames_share_target(installs, (count - 1) as nat);
        assert(frames(count).drop_first() =~= frames((count - 1) as nat));
        assert(seq![delivery(installs)] + Seq::new((count - 1) as nat, |i: int| delivery(installs))
            =~= Seq::new(count, |i: int| delivery(installs)));
    } else {
        assert(deliveries(installs, frames(count)) =~= Seq::new(count, |i: int| delivery(installs)));
    }
}

/// Once viewer A and then viewer B are installed, every following frame is
/// sent to B and none to A.
pub proof fn lemma_latest_sink_wins(installs: nat, count: nat)
    ensures
        ({
            let out = deliveries(installs, seq![RelayEvent::Install, RelayEvent::Install] + frames(count));
            &&& out.len() == count
            &&& forall|i: int| 0 <= i < count ==> out[i] == Delivery::Send(installs + 2)
            &&& forall|i: int| 0 <= i < count ==> out[i] != Delivery::Send(installs + 1)
        }),
{
    let events = seq![RelayEvent::Install, RelayEvent::Install] + frames(count);
    assert(events.drop_first().drop_first() =~= frames(count));
    assert(deliveries(installs + 1, events.drop_first()) == deliveries(installs + 2, frames(count)));
    lemma_frames_share_target(installs + 2, count);
}

/// With no sink installed, routing `count` frames sends nothing and discards each of them.
pub proof fn lemma_no_sink_discards(count: nat)
    ensures
        deliveries(0, frames(count)).len() == count,
        forall|i: int| 0 <= i < count ==> deliveries(0, frames(count))[i] == Delivery::Discard,
        forall|i: int, v: nat| 0 <= i < count ==> deliveries(0, frames(count))[i] != Delivery::Send(v),
{
    lemma_frames_share_target(0, count);
}

/// The outbound stream of the most recently connected viewer, if any.
///
/// Installing a sink replaces the previous one. A sink stays installed after
/// a failed send: frames keep going to it until a newer viewer connects.
pub struct Relay<S> {
    sink: Option<S>,
    installs: u64,
}

impl<S> Relay<S> {
    /// The installed sink.
    pub closed spec fn current(&self) -> Option<S> {
        self.sink
    }

    /// How many sinks have been installed so far.
    pub closed spec fn spec_installs(&self) -> nat {
        self.installs as nat
    }

    /// A sink is installed exactly when one has ever been installed.
    pub open spec fn wf(&self) -> bool {
        self.current().is_some() == (self.spec_installs() > 0)
    }

    /// A relay with no viewer.
    pub fn new() -> (r: Relay<S>)
        ensures
            r.wf(),
            r.current().is_none(),
            r.spec_installs() == 0,
    {
        Relay { sink: None, installs: 0 }
    }

    /// Installs `sink` as the viewer's stream, replacing and handing back the previous one.
    ///
    /// The count of installs stops at `u64::MAX`; the replacement itself
    /// happens whatever the count.
    pub fn install(&mut self, sink: S) -> (displaced: Option<S>)
        requires
            old(self).wf(),
        ensures
            final(self).wf(),
            final(self).current() == Some(sink),
            displaced == old(self).current(),
            old(self).spec_installs() < u64::MAX ==> final(self).spec_installs() == old(self).spec_installs() + 1,
            old(self).spec_installs() == u64::MAX ==> final(self).spec_installs() == u64::MAX,
    {
        self.installs = self.installs.saturating_add(1);
        let displaced = self.sink.take();
        self.sink = Some(sink);
        displaced
    }

    /// The sink that the next frame goes to, or `None` when the frame is to be discarded.
    pub fn route(&mut self) -> (target: Option<&mut S>)
        requires
            old(self).wf(),
        ensures
            target.is_some() == (delivery(old(self).spec_installs()) is Send),
            target.is_none() ==> *final(self) == *old(self),
            target matches Some(t) ==> *t == old(self).current().unwrap() && final(self).current() == Some(*final(t))
                && final(self).spec_installs() == old(self).spec_installs(),
    {
        self.sink.as_mut()
    }

    /// How many sinks have been installed; the current viewer's number, or zero when there is none.
    pub fn installs(&self) -> (r: u64)
        ensures
            r == self.spec_installs(),
    {
        self.installs
    }
}

} // verus!
