use vstd::prelude::*;
use crate::forwarder::delivers_to;
use crate::processor::{names_after, published_for, registry_after, reply_for, stopped_by};
use crate::types::{CommandView, ResponseView, memo_of};

verus! {

/// The active names once a run of commands is processed in order.
pub open spec fn names_after_all(active: Set<Seq<char>>, cs: Seq<CommandView>) -> Set<Seq<char>>
    decreases cs.len(),
{
    if cs.len() == 0 {
        active
    } else {
        names_after(names_after_all(active, cs.drop_last()), cs.last())
    }
}

/// A name that is free is welcomed by a first `Join` and refused by a second
/// one, which publishes nothing and leaves the name registered exactly as the
/// first `Join` left it.
pub proof fn join_twice<H>(reg: Map<Seq<char>, H>, u: Seq<char>, handle: H)
    requires
        !reg.contains_key(u),
    ensures
        reply_for(reg.dom(), CommandView::Join(u)) == Some(
            ResponseView::Joined(memo_of(u, "Warm Welcome"@)),
        ),
        ({
            let joined = reg.insert(u, handle);
            &&& joined.dom() == names_after(reg.dom(), CommandView::Join(u))
            &&& reply_for(joined.dom(), CommandView::Join(u)) == Some(
                ResponseView::Duplicate(memo_of(u, "Sorry"@)),
            )
            &&& published_for(joined.dom(), CommandView::Join(u)) is None
            &&& registry_after(joined, CommandView::Join(u)) == joined
            &&& joined.contains_key(u) && joined[u] == handle
        }),
{
}

/// A message sent in the name of `a` is published as a broadcast that the
/// forwarder of any other active user `b` passes on and that of `a` holds
/// back; sending changes no registration.
pub proof fn send_reaches_others_only(
    active: Set<Seq<char>>,
    a: Seq<char>,
    b: Seq<char>,
    content: Seq<char>,
)
    requires
        active.contains(a),
        active.contains(b),
        a != b,
    ensures
        ({
            let sent = CommandView::Send(memo_of(a, content));
            let r = ResponseView::Broadcast(memo_of(a, content));
            &&& published_for(active, sent) == Some(r)
            &&& reply_for(active, sent) is None
            &&& names_after(active, sent) == active
            &&& delivers_to(b, r)
            &&& !delivers_to(a, r)
        }),
{
}

/// `Leave(u)` takes `u` out of the registry whether or not it was there,
/// announces the departure in both cases, and a second `Leave(u)` changes
/// nothing and stops nothing.
pub proof fn leave_is_idempotent<H>(reg: Map<Seq<char>, H>, u: Seq<char>)
    ensures
        ({
            let leave = CommandView::Leave(u);
            let once = registry_after(reg, leave);
            &&& !once.contains_key(u)
            &&& once == reg.remove(u)
            &&& once.dom() == names_after(reg.dom(), leave)
            &&& registry_after(once, leave) == once
            &&& stopped_by(once, leave) is None
            &&& published_for(reg.dom(), leave) == Some(
                ResponseView::Broadcast(memo_of(u, "Left"@)),
            )
            &&& published_for(once.dom(), leave) == published_for(reg.dom(), leave)
        }),
{
    assert(reg.remove(u).remove(u) =~= reg.remove(u));
}

/// Once `u` has left, its forwarder is the one handed back to be stopped, and
/// no later command but a new `Join(u)` gives `u` a place in the room again,
/// so no later broadcast is passed on to a forwarder of `u`.
pub proof fn left_user_stays_out<H>(
    reg: Map<Seq<char>, H>,
    u: Seq<char>,
    later: Seq<CommandView>,
)
    requires
        forall|i: int| 0 <= i < later.len() ==> later[i] != CommandView::Join(u),
    ensures
        reg.contains_key(u) ==> stopped_by(reg, CommandView::Leave(u)) == Some(reg[u]),
        !names_after_all(names_after(reg.dom(), CommandView::Leave(u)), later).contains(u),
    decreases later.len(),
{
    if later.len() > 0 {
        left_user_stays_out(reg, u, later.drop_last());
        let before = names_after_all(names_after(reg.dom(), CommandView::Leave(u)), later.drop_last());
        assert(later.last() != CommandView::Join(u));
        assert(!names_after(before, later.last()).contains(u));
    }
}

} // verus!
