use vstd::prelude::*;

use crate::errors::TunnelError;
use crate::ids::{id_seq, tunnel_id_string, lemma_tunnel_ids_distinct};
use crate::shutdown::{new_shutdown_channel, fire_shutdown};

verus! {

/// What a successful open hands back to the caller: the identifier under
/// which the tunnel is registered and the locally bound ephemeral port.
#[derive(Debug)]
pub struct TunnelResult {
    pub tunnel_id: String,
    pub local_port: u16,
}

/// One registered tunnel: the counter value it was created from, the
/// identifier derived from that counter, the local port fixed at bind time,
/// and the single-use handle that stops its accept loop.
pub struct TunnelEntry {
    pub num: u64,
    pub id: String,
    pub local_port: u16,
    pub shutdown_tx: tokio::sync::oneshot::Sender<()>,
}

/// The process-wide tunnel registry: a mapping from tunnel identifier to
/// tunnel metadata plus the monotonically increasing counter that mints
/// identifiers.  The caller serializes access (one critical section around
/// each operation); the operations themselves never touch the network.
pub struct TunnelManager {
    pub tunnels: Vec<TunnelEntry>,
    pub next_id: u64,
}

impl TunnelManager {
    /// Registry well-formedness: identifiers derive from counter values that
    /// were minted before `next_id`, and no counter value occurs twice, so by
    /// injectivity of the rendering no identifier occurs twice.
    pub open spec fn wf(self) -> bool {
        &&& self.next_id >= 1
        &&& forall|i: int|
            0 <= i < self.tunnels@.len() ==> (#[trigger] self.tunnels@[i]).num < self.next_id
        &&& forall|i: int|
            0 <= i < self.tunnels@.len() ==> (#[trigger] self.tunnels@[i]).id@ == id_seq(
                self.tunnels@[i].num as nat,
            )
        &&& forall|i: int, j: int|
            0 <= i < j < self.tunnels@.len() ==> (#[trigger] self.tunnels@[i]).num != (
            #[trigger] self.tunnels@[j]).num
    }

    /// Whether some registered tunnel carries the identifier `s`.
    pub open spec fn contains_id(self, s: Seq<char>) -> bool {
        exists|i: int| 0 <= i < self.tunnels@.len() && (#[trigger] self.tunnels@[i]).id@ == s
    }

    /// A fresh registry: no tunnels, counter starting at 1.
    pub fn new() -> (m: TunnelManager)
        ensures
            m.wf(),
            m.next_id == 1,
            m.tunnels@.len() == 0,
    {
        TunnelManager { tunnels: Vec::new(), next_id: 1 }
    }

    /// The index of the entry carrying `tunnel_id`, if any.
    fn find_index(&self, tunnel_id: &String) -> (r: Option<usize>)
        ensures
            (r matches Some(i) ==> i < self.tunnels@.len() && self.tunnels@[i as int].id@
                == tunnel_id@),
            r is None ==> !self.contains_id(tunnel_id@),
    {
        let mut i: usize = 0;
        while i < self.tunnels.len()
            invariant
                i <= self.tunnels@.len(),
                forall|k: int| 0 <= k < i ==> (#[trigger] self.tunnels@[k]).id@ != tunnel_id@,
            decreases self.tunnels@.len() - i,
        {
            if self.tunnels[i].id == *tunnel_id {
                return Some(i);
            }
            i += 1;
        }
        None
    }

    /// Mints the next tunnel identifier, stores the new tunnel under it, and
    /// returns the caller's view of the tunnel together with the receiving
    /// end of its shutdown signal.  The identifier is fresh: it was never in
    /// the registry before, and the counter moves strictly forward.
    pub fn register(&mut self, local_port: u16) -> (r: (
        TunnelResult,
        tokio::sync::oneshot::Receiver<()>,
    ))
        requires
            old(self).wf(),
            old(self).next_id < u64::MAX,
        ensures
            final(self).wf(),
            final(self).next_id == old(self).next_id + 1,
            r.0.tunnel_id@ == id_seq(old(self).next_id as nat),
            r.0.local_port == local_port,
            !old(self).contains_id(id_seq(old(self).next_id as nat)),
            final(self).tunnels@.len() == old(self).tunnels@.len() + 1,
            forall|k: int|
                0 <= k < old(self).tunnels@.len() ==> final(self).tunnels@[k] == old(
                    self,
                ).tunnels@[k],
            final(self).tunnels@.last().num == old(self).next_id,
            final(self).tunnels@.last().id@ == id_seq(old(self).next_id as nat),
            final(self).tunnels@.last().local_port == local_port,
            forall|s: Seq<char>|
                final(self).contains_id(s) <==> (old(self).contains_id(s) || s == id_seq(
                    old(self).next_id as nat,
                )),
    {
        let num = self.next_id;
        let id = tunnel_id_string(num);
        let id_for_caller = id.clone();
        let (tx, rx) = new_shutdown_channel();
        self.tunnels.push(TunnelEntry { num, id, local_port, shutdown_tx: tx });
        self.next_id = num + 1;
        proof {
            let pre = old(self).tunnels@;
            let post = self.tunnels@;
            let fresh = id_seq(num as nat);
            assert forall|k: int| 0 <= k < pre.len() implies (#[trigger] pre[k]).id@ != fresh by {
                lemma_tunnel_ids_distinct(pre[k].num as nat, num as nat);
            }
            assert forall|s: Seq<char>|
                self.contains_id(s) <==> (old(self).contains_id(s) || s == fresh) by {
                if self.contains_id(s) {
                    let k = choose|k: int|
                        0 <= k < post.len() && (#[trigger] post[k]).id@ == s;
                    if k < pre.len() {
                        assert(pre[k].id@ == s);
                    }
                }
                if old(self).contains_id(s) {
                    let k = choose|k: int| 0 <= k < pre.len() && (#[trigger] pre[k]).id@ == s;
                    assert(post[k].id@ == s);
                }
                if s == fresh {
                    assert(post[post.len() - 1].id@ == s);
                }
            }
        }
        (TunnelResult { tunnel_id: id_for_caller, local_port }, rx)
    }

    /// Removes the tunnel registered under `tunnel_id` and fires its shutdown
    /// signal.  Removal is the single gate: a second close of the same
    /// identifier finds nothing and reports `TUNNEL_NOT_FOUND`, and a failed
    /// close leaves the registry exactly as it was.
    pub fn close(&mut self, tunnel_id: &String) -> (r: Result<(), TunnelError>)
        requires
            old(self).wf(),
        ensures
            final(self).wf(),
            final(self).next_id == old(self).next_id,
            r is Ok <==> old(self).contains_id(tunnel_id@),
            r is Ok ==> (forall|s: Seq<char>|
                final(self).contains_id(s) <==> (old(self).contains_id(s) && s != tunnel_id@)),
            r is Ok ==> (forall|k: int|
                0 <= k < final(self).tunnels@.len() ==> (exists|j: int|
                    0 <= j < old(self).tunnels@.len() && #[trigger] final(self).tunnels@[k]
                        == #[trigger] old(self).tunnels@[j])),
            r is Err ==> final(self).tunnels@ == old(self).tunnels@,
            (r matches Err(e) ==> e.code@ == "TUNNEL_NOT_FOUND"@ && e.message@ == "Tunnel not found: "@
                + tunnel_id@),
    {
        match self.find_index(tunnel_id) {
            Some(i) => {
                let entry = self.tunnels.remove(i);
                fire_shutdown(entry.shutdown_tx);
                proof {
                    let pre = old(self).tunnels@;
                    let post = self.tunnels@;
                    let tid = tunnel_id@;
                    pre.remove_ensures(i as int);
                    assert(pre[i as int].id@ == tid);
                    assert forall|j: int|
                        0 <= j < pre.len() && j != i implies (#[trigger] pre[j]).id@ != tid by {
                        if pre[j].id@ == tid {
                            lemma_tunnel_ids_distinct(pre[j].num as nat, pre[i as int].num as nat);
                        }
                    }
                    assert(old(self).contains_id(tid));
                    assert forall|s: Seq<char>|
                        self.contains_id(s) <==> (old(self).contains_id(s) && s != tid) by {
                        if self.contains_id(s) {
                            let k = choose|k: int|
                                0 <= k < post.len() && (#[trigger] post[k]).id@ == s;
                            if k < i {
                                assert(pre[k].id@ == s);
                            } else {
                                assert(pre[k + 1].id@ == s);
                            }
                        }
                        if old(self).contains_id(s) && s != tid {
                            let j = choose|j: int|
                                0 <= j < pre.len() && (#[trigger] pre[j]).id@ == s;
                            if j < i {
                                assert(post[j].id@ == s);
                            } else {
                                assert(post[j - 1].id@ == s);
                            }
                        }
                    }
                    assert forall|k: int| 0 <= k < post.len() implies (exists|j: int|
                        0 <= j < pre.len() && #[trigger] post[k] == #[trigger] pre[j]) by {
                        if k < i {
                            assert(post[k] == pre[k]);
                        } else {
                            assert(post[k] == pre[k + 1]);
                        }
                    }
                    assert(self.wf()) by {
                        assert forall|k: int|
                            0 <= k < post.len() implies (#[trigger] post[k]).num < self.next_id
                                && post[k].id@ == id_seq(post[k].num as nat) by {
                            if k < i {
                                assert(post[k] == pre[k]);
                            } else {
                                assert(post[k] == pre[k + 1]);
                            }
                        }
                        assert forall|k: int, l: int|
                            0 <= k < l < post.len() implies (#[trigger] post[k]).num != (
                            #[trigger] post[l]).num by {
                            if l < i {
                                assert(post[k] == pre[k] && post[l] == pre[l]);
                            } else if k < i {
                                assert(post[k] == pre[k] && post[l] == pre[l + 1]);
                            } else {
                                assert(post[k] == pre[k + 1] && post[l] == pre[l + 1]);
                            }
                        }
                    }
                }
                Ok(())
            },
            None => Err(TunnelError::tunnel_not_found(tunnel_id.as_str())),
        }
    }

    /// Whether the tunnel is still registered (its accept loop has not been
    /// shut down through `close`).  Reads the registry without side effects.
    pub fn status(&self, tunnel_id: &String) -> (r: bool)
        ensures
            r == self.contains_id(tunnel_id@),
    {
        match self.find_index(tunnel_id) {
            Some(i) => {
                proof {
                    assert(self.tunnels@[i as int].id@ == tunnel_id@);
                }
                true
            },
            None => false,
        }
    }

    /// A snapshot of the identifiers of all registered tunnels, in registry
    /// order; the order is not significant to callers.
    pub fn list(&self) -> (r: Vec<String>)
        ensures
            r@.len() == self.tunnels@.len(),
            forall|k: int| 0 <= k < r@.len() ==> (#[trigger] r@[k])@ == self.tunnels@[k].id@,
            forall|s: Seq<char>|
                self.contains_id(s) <==> (exists|k: int|
                    0 <= k < r@.len() && (#[trigger] r@[k])@ == s),
    {
        let mut out: Vec<String> = Vec::new();
        let mut i: usize = 0;
        while i < self.tunnels.len()
            invariant
                i <= self.tunnels@.len(),
                out@.len() == i,
                forall|k: int| 0 <= k < i ==> (#[trigger] out@[k])@ == self.tunnels@[k].id@,
            decreases self.tunnels@.len() - i,
        {
            out.push(self.tunnels[i].id.clone());
            i += 1;
        }
        proof {
            assert forall|s: Seq<char>|
                self.contains_id(s) <==> (exists|k: int|
                    0 <= k < out@.len() && (#[trigger] out@[k])@ == s) by {
                if self.contains_id(s) {
                    let k = choose|k: int|
                        0 <= k < self.tunnels@.len() && (#[trigger] self.tunnels@[k]).id@ == s;
                    assert(out@[k]@ == s);
                }
                if exists|k: int| 0 <= k < out@.len() && (#[trigger] out@[k])@ == s {
                    let k = choose|k: int| 0 <= k < out@.len() && (#[trigger] out@[k])@ == s;
                    assert(self.tunnels@[k].id@ == s);
                }
            }
        }
        out
    }

    /// Drains the registry, firing every still-present shutdown signal; used
    /// on application shutdown.  The counter is not reset, so identifiers are
    /// still never reused within the process lifetime.
    pub fn close_all(&mut self)
        requires
            old(self).wf(),
        ensures
            final(self).wf(),
            final(self).tunnels@.len() == 0,
            final(self).next_id == old(self).next_id,
    {
        while self.tunnels.len() > 0
            invariant
                self.next_id == old(self).next_id,
                self.next_id >= 1,
            decreases self.tunnels@.len(),
        {
            let entry = self.tunnels.pop().unwrap();
            fire_shutdown(entry.shutdown_tx);
        }
    }
}

/// No two tunnels registered at the same time carry the same identifier:
/// the counter never reissues a value, and distinct counter values render
/// to distinct identifiers.
pub proof fn lemma_registered_ids_distinct(m: TunnelManager, i: int, j: int)
    requires
        m.wf(),
        0 <= i < j < m.tunnels@.len(),
    ensures
        m.tunnels@[i].id@ != m.tunnels@[j].id@,
{
    lemma_tunnel_ids_distinct(m.tunnels@[i].num as nat, m.tunnels@[j].num as nat);
}

/// What a successful close leaves behind: the closed identifier is no
/// longer registered — `status` reports false for it and it is absent from
/// `list` — while every other identifier is exactly as registered as it was
/// before, so closing one of several tunnels leaves exactly the others.
pub proof fn lemma_close_removes_exactly(
    before: TunnelManager,
    after: TunnelManager,
    closed: Seq<char>,
)
    requires
        forall|s: Seq<char>| after.contains_id(s) <==> (before.contains_id(s) && s != closed),
    ensures
        !after.contains_id(closed),
        forall|s: Seq<char>| s != closed ==> (after.contains_id(s) <==> before.contains_id(s)),
{
}

impl Default for TunnelManager {
    /// Same as `TunnelManager::new`.
    fn default() -> (m: TunnelManager)
        ensures
            m.wf(),
            m.next_id == 1,
            m.tunnels@.len() == 0,
    {
        TunnelManager::new()
    }
}

} // verus!
