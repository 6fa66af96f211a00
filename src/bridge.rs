//! The settings channel between the worker and the host, and the host's
//! per-frame merge of what it carries.

use vstd::prelude::*;

use crate::noise_engine::{clamp_octaves, NoiseEngine};
use crate::settings::{octave_requests, NoiseGeneratorSettings, NoiseGeneratorSettingsUpdate};

verus! {

#[verifier::external_type_specification]
#[verifier::external_body]
#[verifier::reject_recursive_types(T)]
pub struct ExSender<T>(tokio::sync::mpsc::Sender<T>);

#[verifier::external_type_specification]
#[verifier::external_body]
#[verifier::reject_recursive_types(T)]
pub struct ExReceiver<T>(tokio::sync::mpsc::Receiver<T>);

/// How many updates the channel holds before a send waits.
pub const CHANNEL_CAPACITY: usize = 10;

/// The updates that a receiver has handed out so far, oldest first.
pub uninterp spec fn taken(rx: tokio::sync::mpsc::Receiver<NoiseGeneratorSettingsUpdate>) -> Seq<NoiseGeneratorSettingsUpdate>;

/// The capacity that a receiver's channel was made with.
pub uninterp spec fn bound(rx: tokio::sync::mpsc::Receiver<NoiseGeneratorSettingsUpdate>) -> nat;

/// Relies on tokio::sync::mpsc::channel, which panics on a capacity of zero or
/// above its semaphore's `MAX_PERMITS` (`usize::MAX >> 3`); the channel's
/// bound is `capacity`, and its receiver has handed out nothing yet.
#[verifier::external_body]
fn bounded_channel(capacity: usize) -> (r: (
    tokio::sync::mpsc::Sender<NoiseGeneratorSettingsUpdate>,
    tokio::sync::mpsc::Receiver<NoiseGeneratorSettingsUpdate>,
))
    requires
        0 < capacity <= usize::MAX / 8,
    ensures
        bound(r.1) == capacity,
        taken(r.1) == Seq::<NoiseGeneratorSettingsUpdate>::empty(),
{
    tokio::sync::mpsc::channel(capacity)
}

/// Relies on tokio's Receiver::len: how many messages are queued at the time
/// of the call. The sender may add more at any moment, so nothing is promised.
#[verifier::external_body]
fn queued(rx: &tokio::sync::mpsc::Receiver<NoiseGeneratorSettingsUpdate>) -> usize {
    rx.len()
}

/// Relies on tokio's Receiver::max_capacity: the bound the channel was made
/// with.
#[verifier::external_body]
fn max_capacity(rx: &tokio::sync::mpsc::Receiver<NoiseGeneratorSettingsUpdate>) -> (r: usize)
    ensures
        r == bound(*rx),
{
    rx.max_capacity()
}

/// Relies on tokio's Receiver::try_recv: the oldest queued message, or none
/// when the channel is empty or closed. It does not wait for a message to
/// arrive, though it may briefly park the thread while a concurrent send
/// completes. A message it returns joins what the receiver has handed out;
/// the channel's bound stays.
#[verifier::external_body]
fn try_take(rx: &mut tokio::sync::mpsc::Receiver<NoiseGeneratorSettingsUpdate>) -> (r: Option<NoiseGeneratorSettingsUpdate>)
    ensures
        match r {
            Some(u) => taken(*final(rx)) == taken(*old(rx)).push(u),
            None => taken(*final(rx)) == taken(*old(rx)),
        },
        bound(*final(rx)) == bound(*old(rx)),
{
    rx.try_recv().ok()
}

/// The host's end of the settings channel.
pub struct StreamReceiver(tokio::sync::mpsc::Receiver<NoiseGeneratorSettingsUpdate>);

/// A settings channel of `CHANNEL_CAPACITY`: the worker's sending end and the
/// host's receiving end.
pub fn settings_channel() -> (r: (tokio::sync::mpsc::Sender<NoiseGeneratorSettingsUpdate>, StreamReceiver))
    ensures
        r.1.capacity() == CHANNEL_CAPACITY,
        r.1.handed_out() == Seq::<NoiseGeneratorSettingsUpdate>::empty(),
{
    let (tx, rx) = bounded_channel(CHANNEL_CAPACITY);
    (tx, StreamReceiver(rx))
}

impl StreamReceiver {
    /// The updates handed out to the host so far, oldest first.
    pub closed spec fn handed_out(&self) -> Seq<NoiseGeneratorSettingsUpdate> {
        taken(self.0)
    }

    /// How many updates the channel holds before a send waits.
    pub closed spec fn capacity(&self) -> nat {
        bound(self.0)
    }

    /// How many updates the channel holds before a send waits.
    pub fn max_capacity(&self) -> (r: usize)
        ensures
            r == self.capacity(),
    {
        max_capacity(&self.0)
    }

    /// Takes, oldest first, the updates queued when it is called and hands
    /// them out; it does not wait for messages, and returns nothing when none
    /// is queued.
    pub fn drain(&mut self) -> (r: Vec<NoiseGeneratorSettingsUpdate>)
        ensures
            final(self).handed_out() == old(self).handed_out() + r@,
            final(self).capacity() == old(self).capacity(),
    {
        let ghost start = self.handed_out();
        let ghost cap = self.capacity();
        let n = queued(&self.0);
        let mut out: Vec<NoiseGeneratorSettingsUpdate> = Vec::new();
        let mut i: usize = 0;
        while i < n
            invariant_except_break
                i <= n,
            invariant
                self.handed_out() == start + out@,
                self.capacity() == cap,
            ensures
                self.handed_out() == start + out@,
                self.capacity() == cap,
            decreases n - i,
        {
            match try_take(&mut self.0) {
                Some(u) => {
                    out.push(u);
                    assert(self.handed_out() =~= start + out@);
                },
                None => break,
            }
            i = i + 1;
        }
        out
    }
}

/// The generator's octave count after a batch of updates: the last populated
/// request, clamped, or `count` when no update populates it.
pub open spec fn octaves_after(count: usize, us: Seq<NoiseGeneratorSettingsUpdate>) -> usize {
    let requests = octave_requests(us);
    if requests.len() == 0 {
        count
    } else {
        clamp_octaves(requests.last())
    }
}

/// Merges a batch of updates into the live settings in order, and asks the
/// noise engine for each populated octave count, in order.
pub fn apply_updates(
    settings: &mut NoiseGeneratorSettings,
    engine: &mut NoiseEngine,
    updates: &Vec<NoiseGeneratorSettingsUpdate>,
)
    ensures
        *final(settings) == old(settings).updated_all(updates@),
        final(engine).requests() == old(engine).requests() + octave_requests(updates@),
        final(engine).octave_count() == octaves_after(old(engine).octave_count(), updates@),
        final(engine).seed_value() == old(engine).seed_value(),
        octave_requests(updates@).len() == 0 ==> *final(engine) == *old(engine),
{
    let ghost s0 = *settings;
    let ghost e0 = *engine;
    let ghost r0 = engine.requests();
    let mut i: usize = 0;
    while i < updates.len()
        invariant
            i <= updates.len(),
            *settings == s0.updated_all(updates@.take(i as int)),
            engine.requests() == r0 + octave_requests(updates@.take(i as int)),
            engine.octave_count() == octaves_after(e0.octave_count(), updates@.take(i as int)),
            engine.seed_value() == e0.seed_value(),
            octave_requests(updates@.take(i as int)).len() == 0 ==> *engine == e0,
        decreases updates.len() - i,
    {
        let u = &updates[i];
        settings.apply(u);
        if let Some(n) = u.perlin_noise_octaves {
            engine.set_octaves(n);
        }
        proof {
            let next = updates@.take(i + 1);
            assert(next.drop_last() =~= updates@.take(i as int));
            assert(engine.requests() =~= r0 + octave_requests(next));
        }
        i = i + 1;
    }
    assert(updates@.take(updates.len() as int) =~= updates@);
}

/// One host frame's merge: drains what the channel holds without waiting and
/// merges it in arrival order; returns the drained updates.
pub fn process_noise_generator_update_messages(
    receiver: &mut StreamReceiver,
    engine: &mut NoiseEngine,
    settings: &mut NoiseGeneratorSettings,
) -> (drained: Vec<NoiseGeneratorSettingsUpdate>)
    ensures
        *final(settings) == old(settings).updated_all(drained@),
        final(engine).requests() == old(engine).requests() + octave_requests(drained@),
        final(engine).octave_count() == octaves_after(old(engine).octave_count(), drained@),
        final(engine).seed_value() == old(engine).seed_value(),
        octave_requests(drained@).len() == 0 ==> *final(engine) == *old(engine),
        final(receiver).handed_out() == old(receiver).handed_out() + drained@,
        final(receiver).capacity() == old(receiver).capacity(),
{
    let drained = receiver.drain();
    apply_updates(settings, engine, &drained);
    drained
}

} // verus!
