//! The subscriber registry and broadcaster: each recorded message is offered
//! to every registered delivery endpoint, and an endpoint whose delivery
//! fails is pruned from the registry as part of the same pass.

use vstd::prelude::*;

verus! {

/// Declares crossbeam_channel's sender type so that it can stand in
/// signatures and fields; its values are opaque to verification.
#[verifier::external_type_specification]
#[verifier::external_body]
#[verifier::reject_recursive_types(T)]
pub struct ExSender<T>(crossbeam_channel::Sender<T>);

/// Relies on crossbeam_channel::Sender::send: it queues the message for the
/// receiving side and returns Ok while a receiver is still connected, and
/// hands the message back in an error once the channel has been
/// disconnected. Whether delivery succeeds depends on the receiving side of
/// the channel, so nothing is claimed of the result.
#[verifier::external_body]
fn deliver(subscriber: &crossbeam_channel::Sender<String>, message: &String) -> bool {
    subscriber.send(message.clone()).is_ok()
}

/// The subscribers left in the registry when delivery to each element of
/// `subscribers` succeeded or failed as the matching element of `delivered`
/// says: exactly those with a successful delivery remain, in their original
/// relative order.
pub open spec fn kept_by(
    subscribers: Seq<crossbeam_channel::Sender<String>>,
    delivered: Seq<bool>,
) -> Seq<crossbeam_channel::Sender<String>>
    decreases subscribers.len(),
{
    if subscribers.len() == 0 {
        Seq::empty()
    } else if delivered.last() {
        kept_by(subscribers.drop_last(), delivered.drop_last()).push(subscribers.last())
    } else {
        kept_by(subscribers.drop_last(), delivered.drop_last())
    }
}

/// Attempt delivery of `message` to every registered subscriber, each
/// exactly once, and keep exactly those for which delivery succeeded. The
/// registry never grows during a broadcast.
pub fn broadcast(subscribers: &mut Vec<crossbeam_channel::Sender<String>>, message: &String)
    ensures
        final(subscribers)@.len() <= old(subscribers)@.len(),
        exists|delivered: Seq<bool>|
            delivered.len() == old(subscribers)@.len() && final(subscribers)@ == kept_by(
                old(subscribers)@,
                delivered,
            ),
{
    let ghost original = subscribers@;
    let mut kept: Vec<crossbeam_channel::Sender<String>> = Vec::new();
    let ghost mut delivered: Seq<bool> = Seq::empty();
    proof {
        assert(original.take(0) =~= Seq::<crossbeam_channel::Sender<String>>::empty());
    }
    while subscribers.len() > 0
        invariant
            subscribers@.len() <= original.len(),
            original == original.take(original.len() - subscribers@.len()) + subscribers@,
            delivered.len() == original.len() - subscribers@.len(),
            kept@ == kept_by(original.take(delivered.len() as int), delivered),
            kept@.len() <= delivered.len(),
        decreases subscribers@.len(),
    {
        let ghost visited = delivered.len() as int;
        let subscriber = subscribers.remove(0);
        proof {
            assert(subscriber == original[visited]);
        }
        let ok = deliver(&subscriber, message);
        if ok {
            kept.push(subscriber);
        }
        proof {
            let prev = delivered;
            delivered = delivered.push(ok);
            assert(delivered.drop_last() =~= prev);
            assert(original.take(visited + 1).drop_last() =~= original.take(visited));
            assert(original.take(visited + 1).last() == original[visited]);
            assert(kept_by(original.take(visited + 1), delivered) == (if ok {
                kept_by(original.take(visited), prev).push(original[visited])
            } else {
                kept_by(original.take(visited), prev)
            }));
            assert(original == original.take(original.len() - subscribers@.len())
                + subscribers@) by {
                assert(original =~= original.take(original.len() - subscribers@.len())
                    + subscribers@);
            }
        }
    }
    proof {
        assert(original.take(original.len() as int) =~= original);
    }
    *subscribers = kept;
}

} // verus!
