use vstd::prelude::*;

verus! {

/// One happening observed by a connection relay: something read on the
/// local socket, or something arriving on the forwarded channel.
#[derive(Debug, Clone, PartialEq, Eq)]
pub enum RelayEvent {
    /// A non-empty read from the local socket.
    LocalData(Vec<u8>),
    /// The local socket reached end of file (a zero-byte read).
    LocalClosed,
    /// Reading the local socket failed.
    LocalFailed,
    /// A data frame arrived on the forwarded channel.
    ChannelData(Vec<u8>),
    /// The channel delivered end of file or was closed.
    ChannelClosed,
    /// Some other channel message; the relay ignores it.
    ChannelOther,
}

/// What the relay does in response to one event.
#[derive(Debug, PartialEq, Eq)]
pub enum RelayAction {
    /// Forward these bytes, verbatim, as one data frame on the channel.
    SendToRemote(Vec<u8>),
    /// Write these bytes, verbatim, to the local socket.
    SendToLocal(Vec<u8>),
    /// Do nothing and keep relaying.
    Ignore,
    /// End this relay; the tunnel and every other relay are unaffected.
    Stop,
}

/// The events on which a relay terminates: local EOF, a local read error,
/// or channel EOF/close.
pub open spec fn relay_halts(ev: RelayEvent) -> bool {
    ||| ev matches RelayEvent::LocalClosed
    ||| ev matches RelayEvent::LocalFailed
    ||| ev matches RelayEvent::ChannelClosed
}

/// The bytes a relay forwards to the remote endpoint over its lifetime:
/// every local read before the first terminating event, concatenated in
/// order, unmodified.
pub open spec fn to_remote(evs: Seq<RelayEvent>) -> Seq<u8>
    decreases evs.len(),
{
    if evs.len() == 0 {
        Seq::empty()
    } else if relay_halts(evs[0]) {
        Seq::empty()
    } else {
        (match evs[0] {
            RelayEvent::LocalData(d) => d@,
            _ => Seq::<u8>::empty(),
        }) + to_remote(evs.skip(1))
    }
}

/// The bytes a relay writes to the local socket over its lifetime: every
/// channel data frame before the first terminating event, concatenated in
/// order, unmodified.
pub open spec fn to_local(evs: Seq<RelayEvent>) -> Seq<u8>
    decreases evs.len(),
{
    if evs.len() == 0 {
        Seq::empty()
    } else if relay_halts(evs[0]) {
        Seq::empty()
    } else {
        (match evs[0] {
            RelayEvent::ChannelData(d) => d@,
            _ => Seq::<u8>::empty(),
        }) + to_local(evs.skip(1))
    }
}

/// The relay's decision for one event.  Data is passed through byte for
/// byte — the action carries exactly the bytes of the event — and any
/// terminating event stops the relay.
pub fn relay_step(ev: RelayEvent) -> (a: RelayAction)
    ensures
        (ev matches RelayEvent::LocalData(d) ==> a == RelayAction::SendToRemote(d)),
        (ev matches RelayEvent::ChannelData(d) ==> a == RelayAction::SendToLocal(d)),
        (ev matches RelayEvent::ChannelOther ==> a == RelayAction::Ignore),
        relay_halts(ev) ==> a == RelayAction::Stop,
{
    match ev {
        RelayEvent::LocalData(d) => RelayAction::SendToRemote(d),
        RelayEvent::ChannelData(d) => RelayAction::SendToLocal(d),
        RelayEvent::ChannelOther => RelayAction::Ignore,
        _ => RelayAction::Stop,
    }
}

/// The two byte streams a relay produced over its lifetime.
#[derive(Debug, PartialEq, Eq)]
pub struct RelayOutcome {
    /// Everything forwarded to the remote endpoint.
    pub remote: Vec<u8>,
    /// Everything written to the local socket.
    pub local: Vec<u8>,
}

/// Replays one relay over a trace of events.  Bytes cross the relay
/// unmodified and in order, per direction, up to the first terminating
/// event; the two directions are independent streams.
pub fn run_relay(events: &Vec<RelayEvent>) -> (o: RelayOutcome)
    ensures
        o.remote@ == to_remote(events@),
        o.local@ == to_local(events@),
{
    let mut remote: Vec<u8> = Vec::new();
    let mut local: Vec<u8> = Vec::new();
    let mut i: usize = 0;
    proof {
        assert(events@.skip(0) =~= events@);
        assert(Seq::<u8>::empty() + to_remote(events@) =~= to_remote(events@));
        assert(Seq::<u8>::empty() + to_local(events@) =~= to_local(events@));
    }
    while i < events.len()
        invariant
            i <= events@.len(),
            to_remote(events@) == remote@ + to_remote(events@.skip(i as int)),
            to_local(events@) == local@ + to_local(events@.skip(i as int)),
        decreases events@.len() - i,
    {
        proof {
            assert(events@.skip(i as int).len() > 0);
            assert(events@.skip(i as int)[0] == events@[i as int]);
            assert(events@.skip(i as int).skip(1) =~= events@.skip(i as int + 1));
        }
        match &events[i] {
            RelayEvent::LocalData(d) => {
                let ghost pre = remote@;
                let mut k: usize = 0;
                while k < d.len()
                    invariant
                        k <= d@.len(),
                        remote@ == pre + d@.take(k as int),
                    decreases d@.len() - k,
                {
                    remote.push(d[k]);
                    proof {
                        assert(pre + d@.take(k as int) + seq![d@[k as int]] =~= pre + d@.take(
                            k as int + 1,
                        ));
                    }
                    k += 1;
                }
                proof {
                    assert(d@.take(d@.len() as int) =~= d@);
                    assert(remote@ + to_remote(events@.skip(i as int + 1)) =~= pre + to_remote(
                        events@.skip(i as int),
                    ));
                }
            },
            RelayEvent::ChannelData(d) => {
                let ghost pre = local@;
                let mut k: usize = 0;
                while k < d.len()
                    invariant
                        k <= d@.len(),
                        local@ == pre + d@.take(k as int),
                    decreases d@.len() - k,
                {
                    local.push(d[k]);
                    proof {
                        assert(pre + d@.take(k as int) + seq![d@[k as int]] =~= pre + d@.take(
                            k as int + 1,
                        ));
                    }
                    k += 1;
                }
                proof {
                    assert(d@.take(d@.len() as int) =~= d@);
                    assert(local@ + to_local(events@.skip(i as int + 1)) =~= pre + to_local(
                        events@.skip(i as int),
                    ));
                }
            },
            RelayEvent::ChannelOther => {},
            _ => {
                proof {
                    assert(to_remote(events@.skip(i as int)) =~= Seq::<u8>::empty());
                    assert(to_local(events@.skip(i as int)) =~= Seq::<u8>::empty());
                    assert(to_remote(events@) =~= remote@);
                    assert(to_local(events@) =~= local@);
                }
                return RelayOutcome { remote, local };
            },
        }
        i += 1;
    }
    proof {
        assert(events@.skip(events@.len() as int) =~= Seq::<RelayEvent>::empty());
        assert(to_remote(events@) =~= remote@);
        assert(to_local(events@) =~= local@);
    }
    RelayOutcome { remote, local }
}

} // verus!
