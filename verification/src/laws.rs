//! What the protocol guarantees, proved of the model in `model`.

use vstd::prelude::*;
use crate::awaiter::{
    attempt_gate, attempt_outcome, clears, takes, turn_accounts_for, Progress, Replies,
};
use crate::buffer::{byte_capacity, Staging};
use crate::error::Error;
use crate::gate::{poll_outcome, state_after_clear, state_after_poll, GateState, Readiness};
use crate::model::{fit, records, whole, World};
use crate::request::{staged_poll_accounts_for, stream_poll_accounts_for};

verus! {

/// Of a queue of whole records, a batch takes whole records and leaves whole
/// records; it takes no more than is queued or fits, and at least one record
/// where one is queued and fits.
pub proof fn lemma_fit(queued: nat, room: nat, size: nat)
    requires
        whole(queued, size),
    ensures
        fit(queued, room, size) <= queued,
        fit(queued, room, size) <= room,
        whole(fit(queued, room, size), size),
        whole((queued - fit(queued, room, size)) as nat, size),
        size >= 1 && queued >= size && room >= size ==> fit(queued, room, size) >= size,
    decreases queued,
{
    if size >= 1 && queued >= size && room >= size {
        lemma_fit((queued - size) as nat, (room - size) as nat, size);
    }
}

/// The model's poll is a poll: the world after it and what it reports are
/// what the contract of a stream's poll allows, for the replies of the
/// model's source.
pub proof fn lemma_model_poll_is_a_poll<T>(world: World<T>)
    requires
        world.failed is None,
    ensures
        stream_poll_accounts_for(
            world.staging,
            world.poll().staging,
            world.gate,
            world.reactor(),
            world.poll().gate,
            world.polled(),
        ),
{
    match world.staging {
        Some(staging) => {
            assert(staged_poll_accounts_for(
                world.staged_replies(staging),
                staging,
                world.poll().staging->0,
                world.gate,
                world.reactor(),
                world.poll().gate,
                world.polled(),
            ));
        },
        None => {
            assert(turn_accounts_for(
                world.replies(),
                world.gate,
                world.reactor(),
                world.poll().gate,
                world.polled(),
            ));
        },
    }
}

/// One poll of a live stream. With nothing left to serve it pends and
/// changes nothing. Otherwise it yields the oldest record not yet served, and
/// exactly that record leaves the backlog. It clears the epoch if and only if
/// it reads from the kernel and thereby empties the queue.
pub proof fn lemma_poll_serves_oldest<T>(world: World<T>)
    requires
        world.inv(),
    ensures
        world.poll().inv(),
        world.poll().size == world.size,
        world.poll().decode == world.decode,
        world.backlog().len() == 0 ==> world.polled() is Pending && world.poll() == world,
        world.backlog().len() > 0 ==> {
            &&& world.backlog().len() >= world.size
            &&& world.polled() == Progress::Ready(
                (world.decode)(world.backlog().take(world.size as int)),
            )
            &&& world.poll().backlog() == world.backlog().skip(world.size as int)
        },
        world.clears() <==> world.takes() && world.poll().queue.len() == 0,
        world.poll().queue.len() <= world.queue.len(),
        world.queue.len() == 0 ==> !world.takes(),
{
    let size = world.size;
    let queue = world.queue;
    match world.staging {
        Some(staging) => {
            let replies = world.staged_replies(staging);
            if staging.has_staged() {
                let unread = (staging.bytes.len() - staging.cursor) as nat;
                assert(whole(unread, size));
                assert(unread >= size);
                assert(staging.has_whole_record());
                assert(world.backlog().take(size as int) =~= staging.record());
                assert(world.poll().backlog() =~= world.backlog().skip(size as int));
                assert(whole((unread - size) as nat, size));
            } else {
                assert(staging.bytes.skip(staging.cursor as int) =~= Seq::<u8>::empty());
                assert(world.backlog() =~= queue);
                if queue.len() == 0 {
                    assert(world.poll().staging == world.staging);
                    assert(world.poll().queue == world.queue);
                    assert(world.poll().gate == world.gate);
                    assert(world.poll() == world);
                } else {
                    let taken = fit(queue.len(), staging.capacity, size);
                    lemma_fit(queue.len(), staging.capacity, size);
                    let batch = queue.take(taken as int);
                    let refilled = staging.refilled(Ok(batch));
                    assert(staging.admits(batch));
                    assert(refilled.bytes == batch && refilled.cursor == 0);
                    assert(staging.refill_count(Ok(batch)) == Ok::<usize, Error>(taken as usize));
                    assert(refilled.has_whole_record());
                    assert(refilled.record() =~= queue.take(size as int));
                    assert(world.takes());
                    let after = refilled.advanced();
                    assert(world.poll().staging == Some(after));
                    assert(after.bytes.skip(after.cursor as int) + queue.skip(taken as int)
                        =~= queue.skip(size as int));
                    assert(whole((taken - size) as nat, size));
                }
            }
        },
        None => {
            if queue.len() > 0 {
                assert(queue.len() >= size);
                assert(world.takes());
                assert(whole((queue.len() - size) as nat, size));
            } else {
                assert(world.poll() == world);
            }
        },
    }
}

/// A stream driven until it pends yields every queued record, decoded, in the
/// order the kernel queued them, whether it stages nothing or stages in a
/// buffer of any capacity; after the last it pends.
pub proof fn lemma_stream_yields_queue_in_order<T>(world: World<T>)
    requires
        world.inv(),
    ensures
        ({
            let queued = records(world.backlog(), world.size);
            &&& world.drive(queued.len()) == queued.map_values(
                |record: Seq<u8>| Progress::Ready((world.decode)(record)),
            )
            &&& world.after(queued.len()).backlog().len() == 0
            &&& world.after(queued.len()).polled() is Pending
            &&& world.after(queued.len()).inv()
        }),
    decreases world.backlog().len(),
{
    let queued = records(world.backlog(), world.size);
    let ready = |record: Seq<u8>| Progress::Ready((world.decode)(record));
    lemma_poll_serves_oldest(world);
    if world.backlog().len() == 0 {
        assert(world.drive(0) =~= queued.map_values(ready));
    } else {
        let next = world.poll();
        lemma_stream_yields_queue_in_order(next);
        let rest = records(next.backlog(), next.size);
        assert(queued =~= seq![world.backlog().take(world.size as int)] + rest);
        assert(queued.len() == rest.len() + 1);
        assert(world.drive(queued.len()) =~= queued.map_values(ready)) by {
            let next_ready = |record: Seq<u8>| Progress::Ready((next.decode)(record));
            assert(next.drive(rest.len()) == rest.map_values(next_ready));
            assert forall|i: int| 0 <= i < queued.len() implies world.drive(queued.len())[i]
                == queued.map_values(ready)[i] by {
                if i > 0 {
                    assert(world.drive(queued.len())[i] == next.drive(rest.len())[i - 1]);
                    assert(rest.map_values(next_ready)[i - 1] == next_ready(rest[i - 1]));
                    assert(queued[i] == rest[i - 1]);
                }
            }
        }
    }
}

/// A drain to empty clears the epoch exactly once: of the polls that serve
/// the backlog, one clears if records are queued in the kernel, and none if
/// all that is left is staged.
pub proof fn lemma_drain_clears_once<T>(world: World<T>)
    requires
        world.inv(),
    ensures
        world.clearings(records(world.backlog(), world.size).len()) == if world.queue.len() > 0 {
            1nat
        } else {
            0nat
        },
    decreases world.backlog().len(),
{
    lemma_poll_serves_oldest(world);
    if world.backlog().len() > 0 {
        let next = world.poll();
        lemma_drain_clears_once(next);
        let rest = records(next.backlog(), next.size);
        assert(records(world.backlog(), world.size) =~= seq![
            world.backlog().take(world.size as int),
        ] + rest);
    } else {
        assert(world.queue.len() == 0);
    }
}

/// A new stream before `queue`, the bytes of the records that the kernel has
/// queued: its gate is closed and nothing is staged. With `capacity` it
/// stages that many events per read, without it none.
pub open spec fn new_stream<T>(
    queue: Seq<u8>,
    size: usize,
    decode: spec_fn(Seq<u8>) -> Result<T, Error>,
    capacity: Option<usize>,
) -> World<T> {
    World {
        queue,
        size: size as nat,
        decode,
        gate: GateState::AwaitingReady,
        staging: match capacity {
            Some(events) => Some(
                Staging {
                    bytes: Seq::empty(),
                    cursor: 0,
                    capacity: byte_capacity(events, size),
                    event_size: size as nat,
                },
            ),
            None => None,
        },
        failed: None,
    }
}

/// For a queue of any number of events and any staging capacity, also none:
/// a new stream driven until it pends yields each queued event once, decoded,
/// in the order the kernel queued them, and then pends. Where at least one
/// event is queued, exactly one of those polls clears the epoch.
pub proof fn lemma_new_stream_yields_every_event<T>(
    queue: Seq<u8>,
    size: usize,
    decode: spec_fn(Seq<u8>) -> Result<T, Error>,
    capacity: Option<usize>,
)
    requires
        size >= 1,
        whole(queue.len(), size as nat),
        forall|record: Seq<u8>| !(#[trigger] decode(record) matches Err(Error::Io(_))),
    ensures
        ({
            let stream = new_stream(queue, size, decode, capacity);
            let queued = records(queue, size as nat);
            &&& stream.drive(queued.len()) == queued.map_values(
                |record: Seq<u8>| Progress::Ready(decode(record)),
            )
            &&& stream.after(queued.len()).polled() is Pending
            &&& stream.after(queued.len()).queue.len() == 0
            &&& stream.clearings(queued.len()) == if queue.len() > 0 {
                1nat
            } else {
                0nat
            }
        }),
{
    let stream = new_stream(queue, size, decode, capacity);
    if let Some(events) = capacity {
        let count: int = if events == 0 { 1 } else { events as int };
        assert(count * size >= size) by (nonlinear_arith)
            requires
                count >= 1,
                size >= 1,
        ;
    }
    assert(stream.backlog() =~= queue);
    assert(stream.inv());
    lemma_stream_yields_queue_in_order(stream);
    lemma_drain_clears_once(stream);
    let end = stream.after(records(queue, size as nat).len());
    assert(end.queue.len() <= end.backlog().len());
}

/// A poll never clears the epoch while records are left in the kernel's
/// queue, and never leaves it open over an empty queue.
pub proof fn lemma_no_stall_no_spin<T>(world: World<T>)
    requires
        world.inv(),
    ensures
        world.clears() ==> world.poll().queue.len() == 0,
        world.poll().gate == GateState::ReadyEpochOpen ==> world.poll().queue.len() > 0,
{
    lemma_poll_serves_oldest(world);
}

/// A spurious wake: where the source says that nothing is pending, the
/// attempt asks for a retry, takes nothing and leaves the epoch as it was,
/// whatever the other replies would have been.
pub proof fn lemma_spurious_wake_retries<T>(replies: Replies<T>, before: GateState)
    requires
        replies.first == Ok::<bool, Error>(false),
    ensures
        attempt_outcome(replies) is Retry,
        !takes(replies.first),
        attempt_gate(before, replies.first, replies.second) == before,
{
}

/// After a take, the epoch is cleared if and only if the source then says
/// that nothing is pending. What was taken, an event or a decode error, is
/// reported as it is and has no part in that decision.
pub proof fn lemma_take_decides_nothing<T>(
    taken: Result<T, Error>,
    second: Result<bool, Error>,
    before: GateState,
)
    ensures
        clears(Ok(true), second) <==> second == Ok::<bool, Error>(false),
        attempt_gate(before, Ok(true), second) == if second == Ok::<bool, Error>(false) {
            state_after_clear(before)
        } else {
            before
        },
        second is Ok ==> attempt_outcome(Replies { first: Ok(true), taken: Some(taken), second })
            == Progress::Ready(taken),
{
}

/// Dropping a suspension changes nothing: a poll that pends leaves the readiness gate
/// as it was. So the next poll resolves at once where an epoch is open, and
/// with the epoch cleared it pends until the reactor reports readiness.
pub proof fn lemma_cancellation_keeps_epoch(gate: GateState, reactor: Result<Readiness, Error>)
    requires
        gate != GateState::Unregistered,
    ensures
        poll_outcome(gate, reactor) == Ok::<Readiness, Error>(Readiness::Pending)
            ==> state_after_poll(gate, reactor) == gate,
        gate == GateState::ReadyEpochOpen ==> poll_outcome(gate, reactor) == Ok::<
            Readiness,
            Error,
        >(Readiness::Ready),
        gate == GateState::AwaitingReady ==> poll_outcome(gate, reactor) == reactor,
        state_after_poll(gate, reactor) == GateState::ReadyEpochOpen <==> poll_outcome(
            gate,
            reactor,
        ) == Ok::<Readiness, Error>(Readiness::Ready),
{
}

} // verus!
