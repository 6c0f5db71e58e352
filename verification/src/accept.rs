use vstd::prelude::*;

verus! {

/// One happening observed by a tunnel's accept loop.
#[derive(Debug, Clone, Copy, PartialEq, Eq, Structural)]
pub enum AcceptEvent {
    /// The tunnel's one-shot shutdown signal fired.
    ShutdownRequested,
    /// A new local connection arrived.
    ConnectionArrived,
    /// The accept itself failed (for example resource exhaustion).
    AcceptFailed,
}

/// What the accept loop does in response to one event.
#[derive(Debug, Clone, Copy, PartialEq, Eq, Structural)]
pub enum AcceptAction {
    /// Leave the loop; no further accepts happen.
    Stop,
    /// Spawn an independent relay for the new connection and resume waiting.
    SpawnRelay,
    /// Note the failure and resume waiting; an accept error never ends the
    /// loop.
    KeepWaiting,
}

/// How many connections a loop driven by `evs` admits: one per connection
/// event strictly before the first shutdown event.
pub open spec fn admitted(evs: Seq<AcceptEvent>) -> nat
    decreases evs.len(),
{
    if evs.len() == 0 {
        0
    } else {
        match evs[0] {
            AcceptEvent::ShutdownRequested => 0,
            AcceptEvent::ConnectionArrived => 1 + admitted(evs.skip(1)),
            AcceptEvent::AcceptFailed => admitted(evs.skip(1)),
        }
    }
}

/// The accept loop's decision for one event: shutdown stops the loop, a
/// connection spawns a relay, an accept error is tolerated.
pub fn accept_step(ev: AcceptEvent) -> (a: AcceptAction)
    ensures
        ev == AcceptEvent::ShutdownRequested ==> a == AcceptAction::Stop,
        ev == AcceptEvent::ConnectionArrived ==> a == AcceptAction::SpawnRelay,
        ev == AcceptEvent::AcceptFailed ==> a == AcceptAction::KeepWaiting,
{
    match ev {
        AcceptEvent::ShutdownRequested => AcceptAction::Stop,
        AcceptEvent::ConnectionArrived => AcceptAction::SpawnRelay,
        AcceptEvent::AcceptFailed => AcceptAction::KeepWaiting,
    }
}

/// Replays an accept loop over a trace of events and counts the connections
/// it admits: exactly those that arrive before the first shutdown event, so
/// once the shutdown signal fires no further local connection is admitted.
pub fn run_accept(events: &Vec<AcceptEvent>) -> (n: usize)
    ensures
        n as nat == admitted(events@),
{
    let mut n: usize = 0;
    let mut i: usize = 0;
    proof {
        assert(events@.skip(0) =~= events@);
    }
    while i < events.len()
        invariant
            i <= events@.len(),
            n <= i,
            admitted(events@) == n as nat + admitted(events@.skip(i as int)),
        decreases events@.len() - i,
    {
        proof {
            assert(events@.skip(i as int).len() > 0);
            assert(events@.skip(i as int)[0] == events@[i as int]);
            assert(events@.skip(i as int).skip(1) =~= events@.skip(i as int + 1));
        }
        match accept_step(events[i]) {
            AcceptAction::Stop => {
                proof {
                    assert(admitted(events@.skip(i as int)) == 0);
                }
                return n;
            },
            AcceptAction::SpawnRelay => {
                n += 1;
            },
            AcceptAction::KeepWaiting => {},
        }
        i += 1;
    }
    proof {
        assert(events@.skip(events@.len() as int) =~= Seq::<AcceptEvent>::empty());
    }
    n
}

/// Once a shutdown event is in the trace, nothing that follows it changes
/// how many connections the loop admits: the loop has stopped accepting.
pub proof fn lemma_no_admissions_after_shutdown(pre: Seq<AcceptEvent>, post: Seq<AcceptEvent>)
    ensures
        admitted(pre.push(AcceptEvent::ShutdownRequested) + post) == admitted(
            pre.push(AcceptEvent::ShutdownRequested),
        ),
    decreases pre.len(),
{
    let stopped = pre.push(AcceptEvent::ShutdownRequested);
    if pre.len() == 0 {
        assert((stopped + post)[0] == AcceptEvent::ShutdownRequested);
        assert(stopped[0] == AcceptEvent::ShutdownRequested);
    } else {
        lemma_no_admissions_after_shutdown(pre.skip(1), post);
        assert((stopped + post)[0] == pre[0]);
        assert(stopped[0] == pre[0]);
        assert((stopped + post).skip(1) =~= pre.skip(1).push(AcceptEvent::ShutdownRequested)
            + post);
        assert(stopped.skip(1) =~= pre.skip(1).push(AcceptEvent::ShutdownRequested));
    }
}

} // verus!
