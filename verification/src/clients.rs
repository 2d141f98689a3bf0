//! The connected companion apps.
use vstd::prelude::*;

verus! {

/// The clients that a message reached, in order.
pub open spec fn reached<C>(deliveries: Seq<(C, bool)>) -> Seq<C> {
    deliveries.filter(|delivery: (C, bool)| delivery.1).map_values(
        |delivery: (C, bool)| delivery.0,
    )
}

/// One more delivery adds its client at the end, if the message reached it.
proof fn reached_by_one_more<C>(deliveries: Seq<(C, bool)>, delivery: (C, bool))
    ensures
        reached(deliveries.push(delivery)) == if delivery.1 {
            reached(deliveries).push(delivery.0)
        } else {
            reached(deliveries)
        },
{
    reveal(Seq::filter);
    assert(deliveries.push(delivery).drop_last() =~= deliveries);
    assert(reached(deliveries.push(delivery)) =~= if delivery.1 {
        reached(deliveries).push(delivery.0)
    } else {
        reached(deliveries)
    });
}

/// Keeps the clients that a message reached, and drops the others.
pub fn broadcast_log<C>(deliveries: Vec<(C, bool)>) -> (clients: Vec<C>)
    ensures
        clients@ == reached(deliveries@),
{
    let mut clients: Vec<C> = Vec::new();
    let ghost all = deliveries@;
    proof {
        reveal(Seq::filter);
    }
    assert(clients@ =~= reached(all.take(0)));
    for delivery in iter: deliveries
        invariant
            iter.seq() == all,
            clients@ == reached(all.take(iter.index() as int)),
    {
        proof {
            reached_by_one_more(all.take(iter.index() as int), delivery);
            assert(all.take(iter.index() + 1) =~= all.take(iter.index() as int).push(delivery));
        }
        let (client, delivered) = delivery;
        if delivered {
            clients.push(client);
        }
    }
    assert(all.take(all.len() as int) =~= all);
    clients
}

/// A broadcast that reaches every client drops none.
pub proof fn broadcast_keeps_all_that_it_reaches<C>(deliveries: Seq<(C, bool)>)
    requires
        forall|i: int| 0 <= i < deliveries.len() ==> (#[trigger] deliveries[i]).1,
    ensures
        reached(deliveries) == deliveries.map_values(|delivery: (C, bool)| delivery.0),
    decreases deliveries.len(),
{
    reveal(Seq::filter);
    if deliveries.len() > 0 {
        let earlier = deliveries.drop_last();
        assert forall|i: int| 0 <= i < earlier.len() implies (#[trigger] earlier[i]).1 by {
            assert(earlier[i] == deliveries[i]);
        }
        broadcast_keeps_all_that_it_reaches(earlier);
        reached_by_one_more(earlier, deliveries.last());
        assert(earlier.push(deliveries.last()) =~= deliveries);
    }
    assert(reached(deliveries) =~= deliveries.map_values(|delivery: (C, bool)| delivery.0));
}

/// Clients are kept or dropped one by one: a client that the message reached is kept, any other is
/// dropped, and what becomes of one says nothing of the others.
pub proof fn clients_are_kept_one_by_one<C>(
    one: Seq<(C, bool)>,
    other: Seq<(C, bool)>,
    client: C,
)
    ensures
        reached(one + other) == reached(one) + reached(other),
        reached(seq![(client, true)]) == seq![client],
        reached(seq![(client, false)]) == Seq::<C>::empty(),
    decreases other.len(),
{
    reveal(Seq::filter);
    assert(reached(Seq::<(C, bool)>::empty()) =~= Seq::empty());
    reached_by_one_more(Seq::<(C, bool)>::empty(), (client, true));
    reached_by_one_more(Seq::<(C, bool)>::empty(), (client, false));
    assert(Seq::<(C, bool)>::empty().push((client, true)) =~= seq![(client, true)]);
    assert(Seq::<(C, bool)>::empty().push((client, false)) =~= seq![(client, false)]);
    assert(Seq::<C>::empty().push(client) =~= seq![client]);
    if other.len() == 0 {
        assert(one + other =~= one);
        assert(other =~= Seq::empty());
        assert(reached(one) + reached(other) =~= reached(one));
    } else {
        let earlier = other.drop_last();
        clients_are_kept_one_by_one(one, earlier, client);
        reached_by_one_more(one + earlier, other.last());
        reached_by_one_more(earlier, other.last());
        assert((one + earlier).push(other.last()) =~= one + other);
        assert(earlier.push(other.last()) =~= other);
        assert(reached(one + other) =~= reached(one) + reached(other));
    }
}

} // verus!
