//! The connection registry: one entry per state token, gathering the
//! fanout senders of every live sibling WebSocket and the shared upstream
//! session handles. All decisions about joining, leaving and fanning out
//! are made here; the surrounding runtime owns the sockets the handles
//! stand for.

use vstd::prelude::*;

verus! {

/// The registry record for one state token.
pub struct ClientEntry {
    /// The state token this entry serves.
    pub state_token: String,
    /// The context handle of the first sibling that registered.
    pub context_id: u64,
    /// Fanout sender handles, one per live sibling WebSocket, in join
    /// order.
    pub senders: Vec<u64>,
    /// The shared Twitch EventSub session handle, if one was built.
    pub twitch_session: Option<u64>,
    /// The shared Streamlabs socket session handle, if one was built.
    pub streamlabs_session: Option<u64>,
}

/// The process-wide mapping from state tokens to entries.
pub struct Registry {
    pub entries: Vec<ClientEntry>,
}

/// The index of the entry with the given token, from `i` on.
pub open spec fn find_token_from(entries: Seq<ClientEntry>, tok: Seq<char>, i: int) -> Option<int>
    decreases entries.len() - i,
{
    if i < 0 || i >= entries.len() {
        None
    } else if entries[i].state_token@ == tok {
        Some(i)
    } else {
        find_token_from(entries, tok, i + 1)
    }
}

/// The index of the entry with the given token.
pub open spec fn find_token(entries: Seq<ClientEntry>, tok: Seq<char>) -> Option<int> {
    find_token_from(entries, tok, 0)
}

impl Registry {
    /// Well-formedness: state tokens are distinct, every entry has at
    /// least one sender, and senders within an entry are distinct.
    pub open spec fn wf(self) -> bool {
        &&& forall|i: int, j: int|
            0 <= i < j < self.entries@.len() ==> self.entries@[i].state_token@
                != self.entries@[j].state_token@
        &&& forall|i: int|
            0 <= i < self.entries@.len() ==> #[trigger] self.entries@[i].senders@.len() >= 1
        &&& forall|i: int, a: int, b: int|
            0 <= i < self.entries@.len() && 0 <= a < b < self.entries@[i].senders@.len()
                ==> self.entries@[i].senders@[a] != self.entries@[i].senders@[b]
    }

    /// An empty registry.
    pub fn new() -> (r: Registry)
        ensures
            r.wf(),
            r.entries@.len() == 0,
    {
        Registry { entries: Vec::new() }
    }

    /// The index of the entry serving `token`, if any.
    pub fn find_entry(&self, token: &str) -> (r: Option<usize>)
        ensures
            match r {
                Some(k) => k < self.entries@.len() && find_token(self.entries@, token@) == Some(
                    k as int,
                ) && self.entries@[k as int].state_token@ == token@,
                None => find_token(self.entries@, token@) is None,
            },
    {
        let n = self.entries.len();
        let mut i: usize = 0;
        while i < n
            invariant
                n == self.entries@.len(),
                i <= n,
                find_token_from(self.entries@, token@, 0) == find_token_from(
                    self.entries@,
                    token@,
                    i as int,
                ),
            decreases n - i,
        {
            if crate::wire::str_eq(self.entries[i].state_token.as_str(), token) {
                return Some(i);
            }
            i = i + 1;
        }
        None
    }

    /// Whether an entry serves `token`.
    pub fn contains(&self, token: &str) -> (r: bool)
        ensures
            r == (find_token(self.entries@, token@) is Some),
    {
        match self.find_entry(token) {
            Some(_) => true,
            None => false,
        }
    }

    /// Registers a sibling WebSocket under `token`.
    ///
    /// The first sibling creates the entry, carrying the upstream session
    /// handles that were just built from its context; later siblings only
    /// add their sender, and the entry's sessions stay exactly as they
    /// were: sessions are constructed at most once per entry lifetime.
    pub fn register(
        &mut self,
        token: String,
        context_id: u64,
        sender: u64,
        twitch_session: Option<u64>,
        streamlabs_session: Option<u64>,
    ) -> (created: bool)
        requires
            old(self).wf(),
        ensures
            final(self).wf(),
            created == (find_token(old(self).entries@, token@) is None),
            created ==> {
                &&& final(self).entries@.len() == old(self).entries@.len() + 1
                &&& forall|j: int|
                    0 <= j < old(self).entries@.len() ==> final(self).entries@[j] == old(
                        self,
                    ).entries@[j]
                &&& final(self).entries@.last().state_token@ == token@
                &&& final(self).entries@.last().context_id == context_id
                &&& final(self).entries@.last().senders@ =~= seq![sender]
                &&& final(self).entries@.last().twitch_session == twitch_session
                &&& final(self).entries@.last().streamlabs_session == streamlabs_session
            },
            !created ==> {
                &&& find_token(old(self).entries@, token@) matches Some(k)
                &&& final(self).entries@.len() == old(self).entries@.len()
                &&& forall|j: int|
                    0 <= j < old(self).entries@.len() && j != k ==> final(self).entries@[j]
                        == old(self).entries@[j]
                &&& final(self).entries@[k].state_token@ == old(self).entries@[k].state_token@
                &&& final(self).entries@[k].context_id == old(self).entries@[k].context_id
                &&& final(self).entries@[k].twitch_session == old(
                    self,
                ).entries@[k].twitch_session
                &&& final(self).entries@[k].streamlabs_session == old(
                    self,
                ).entries@[k].streamlabs_session
                &&& (final(self).entries@[k].senders@ == old(self).entries@[k].senders@
                    || final(self).entries@[k].senders@ == old(self).entries@[k].senders@.push(
                    sender,
                ))
                &&& final(self).entries@[k].senders@.contains(sender)
            },
    {
        match self.find_entry(token.as_str()) {
            None => {
                let mut senders: Vec<u64> = Vec::new();
                senders.push(sender);
                let entry = ClientEntry {
                    state_token: token,
                    context_id,
                    senders,
                    twitch_session,
                    streamlabs_session,
                };
                proof {
                    assert forall|i: int|
                        0 <= i < self.entries@.len() implies self.entries@[i].state_token@
                        != entry.state_token@ by {
                        if self.entries@[i].state_token@ == entry.state_token@ {
                            lemma_find_token_hits(self.entries@, entry.state_token@, i);
                        }
                    }
                }
                self.entries.push(entry);
                true
            }
            Some(k) => {
                let mut already = false;
                let n = self.entries[k].senders.len();
                let mut i: usize = 0;
                while i < n
                    invariant
                        k < self.entries@.len(),
                        n == self.entries@[k as int].senders@.len(),
                        i <= n,
                        already == exists|j: int|
                            0 <= j < i && self.entries@[k as int].senders@[j] == sender,
                    decreases n - i,
                {
                    if self.entries[k].senders[i] == sender {
                        already = true;
                    }
                    i = i + 1;
                }
                if !already {
                    let entry = &mut self.entries[k];
                    entry.senders.push(sender);
                }
                proof {
                    assert(final(self).entries@[k as int].senders@.contains(sender)) by {
                        if already {
                        } else {
                            assert(self.entries@[k as int].senders@.last() == sender);
                        }
                    }
                }
                false
            }
        }
    }

    /// Removes a sibling's sender from the entry under `token`. When the
    /// last sender leaves, the entry itself is removed and its upstream
    /// session handles are handed back so the caller can disconnect them;
    /// no entry then remains for that token.
    pub fn leave(&mut self, token: &str, sender: u64) -> (r: Option<(Option<u64>, Option<u64>)>)
        requires
            old(self).wf(),
        ensures
            final(self).wf(),
            find_token(old(self).entries@, token@) is None ==> r is None && final(self).entries@
                == old(self).entries@,
            find_token(old(self).entries@, token@) matches Some(k) ==> {
                let pre = old(self).entries@;
                let post = final(self).entries@;
                let rest = without_sender(pre[k].senders@, sender);
                &&& (r is Some <==> rest.len() == 0)
                &&& (r matches Some(s) ==> {
                    &&& s.0 == pre[k].twitch_session
                    &&& s.1 == pre[k].streamlabs_session
                    &&& post =~= pre.remove(k)
                    &&& find_token(post, token@) is None
                })
                &&& (r is None ==> shrunk_at(pre, post, k, rest))
            },
    {
        let k = match self.find_entry(token) {
            Some(k) => k,
            None => {
                return None;
            }
        };
        let ghost old_entries = self.entries@;
        let n = self.entries[k].senders.len();
        let mut idx: usize = 0;
        let mut found: Option<usize> = None;
        while idx < n
            invariant
                k < self.entries@.len(),
                n == self.entries@[k as int].senders@.len(),
                idx <= n,
                match found {
                    Some(f) => f < n && find_sender_from(
                        self.entries@[k as int].senders@,
                        sender,
                        0,
                    ) == Some(f as int),
                    None => find_sender_from(self.entries@[k as int].senders@, sender, 0)
                        == find_sender_from(self.entries@[k as int].senders@, sender, idx as int),
                },
            decreases n - idx,
        {
            if found.is_none() && self.entries[k].senders[idx] == sender {
                found = Some(idx);
                proof {
                    assert(find_sender_from(self.entries@[k as int].senders@, sender, idx as int)
                        == Some(idx as int));
                }
                idx = n;
            } else {
                idx = idx + 1;
            }
        }
        if let Some(f) = found {
            let entry = &mut self.entries[k];
            entry.senders.remove(f);
        }
        let ghost mid = self.entries@;
        if self.entries[k].senders.len() == 0 {
            let entry = self.entries.remove(k);
            proof {
                assert forall|i: int|
                    0 <= i < self.entries@.len() implies self.entries@[i].state_token@
                    != token@ by {
                    if i < k {
                        assert(mid[i] == self.entries@[i]);
                        assert(mid[i].state_token@ == old_entries[i].state_token@);
                    } else {
                        assert(mid[i + 1] == self.entries@[i]);
                        assert(mid[i + 1].state_token@ == old_entries[i + 1].state_token@);
                    }
                }
                lemma_find_token_misses(self.entries@, token@);
            }
            Some((entry.twitch_session, entry.streamlabs_session))
        } else {
            None
        }
    }

    /// The fanout sender handles under `token`, in join order; empty when
    /// no entry serves the token. A frame broadcast to the siblings is
    /// serialised once and written to each of these in order.
    pub fn fanout_senders(&self, token: &str) -> (r: Vec<u64>)
        ensures
            match find_token(self.entries@, token@) {
                Some(k) => r@ == self.entries@[k].senders@,
                None => r@.len() == 0,
            },
    {
        match self.find_entry(token) {
            None => Vec::new(),
            Some(k) => {
                let n = self.entries[k].senders.len();
                let mut out: Vec<u64> = Vec::new();
                let mut i: usize = 0;
                while i < n
                    invariant
                        k < self.entries@.len(),
                        n == self.entries@[k as int].senders@.len(),
                        i <= n,
                        out@ == self.entries@[k as int].senders@.subrange(0, i as int),
                    decreases n - i,
                {
                    out.push(self.entries[k].senders[i]);
                    proof {
                        assert(out@ =~= self.entries@[k as int].senders@.subrange(
                            0,
                            i + 1 as int,
                        ));
                    }
                    i = i + 1;
                }
                proof {
                    assert(out@ =~= self.entries@[k as int].senders@);
                }
                out
            }
        }
    }

    /// The upstream session handles and context handle under `token`.
    pub fn entry_info(&self, token: &str) -> (r: Option<(u64, Option<u64>, Option<u64>)>)
        ensures
            match find_token(self.entries@, token@) {
                Some(k) => r == Some(
                    (
                        self.entries@[k].context_id,
                        self.entries@[k].twitch_session,
                        self.entries@[k].streamlabs_session,
                    ),
                ),
                None => r is None,
            },
    {
        match self.find_entry(token) {
            None => None,
            Some(k) => Some(
                (
                    self.entries[k].context_id,
                    self.entries[k].twitch_session,
                    self.entries[k].streamlabs_session,
                ),
            ),
        }
    }
}

/// The index of the first sender equal to `x`, from `i` on.
pub open spec fn find_sender_from(s: Seq<u64>, x: u64, i: int) -> Option<int>
    decreases s.len() - i,
{
    if i < 0 || i >= s.len() {
        None
    } else if s[i] == x {
        Some(i)
    } else {
        find_sender_from(s, x, i + 1)
    }
}

/// The senders with the first occurrence of `x` removed.
pub open spec fn without_sender(s: Seq<u64>, x: u64) -> Seq<u64> {
    match find_sender_from(s, x, 0) {
        Some(i) => s.remove(i),
        None => s,
    }
}

/// The registry after a sibling left without emptying its entry: the
/// entry at `k` keeps everything but its sender list, which becomes
/// `rest`; all other entries are untouched.
pub open spec fn shrunk_at(pre: Seq<ClientEntry>, post: Seq<ClientEntry>, k: int,
    rest: Seq<u64>) -> bool {
    &&& post.len() == pre.len()
    &&& post[k].senders@ == rest
    &&& post[k].state_token@ == pre[k].state_token@
    &&& post[k].context_id == pre[k].context_id
    &&& post[k].twitch_session == pre[k].twitch_session
    &&& post[k].streamlabs_session == pre[k].streamlabs_session
    &&& forall|j: int| 0 <= j < pre.len() && j != k ==> post[j] == pre[j]
}

/// If no entry carries `tok`, the scan finds nothing.
pub proof fn lemma_find_token_misses(entries: Seq<ClientEntry>, tok: Seq<char>)
    requires
        forall|i: int| 0 <= i < entries.len() ==> (#[trigger] entries[i].state_token@) != tok,
    ensures
        find_token(entries, tok) is None,
{
    lemma_find_token_misses_from(entries, tok, 0);
}

proof fn lemma_find_token_misses_from(entries: Seq<ClientEntry>, tok: Seq<char>, i: int)
    requires
        0 <= i,
        forall|j: int| 0 <= j < entries.len() ==> (#[trigger] entries[j].state_token@) != tok,
    ensures
        find_token_from(entries, tok, i) is None,
    decreases entries.len() - i,
{
    if i < entries.len() {
        lemma_find_token_misses_from(entries, tok, i + 1);
    }
}

/// For every state token, a well-formed registry holds at most one
/// entry, and that entry has at least one live sender.
pub proof fn lemma_one_entry_per_token(r: Registry, i: int, j: int)
    requires
        r.wf(),
        0 <= i < r.entries@.len(),
        0 <= j < r.entries@.len(),
        r.entries@[i].state_token@ == r.entries@[j].state_token@,
    ensures
        i == j,
        r.entries@[i].senders@.len() >= 1,
{
}

/// If some entry at `i` carries `tok`, the scan from 0 finds an entry.
proof fn lemma_find_token_hits(entries: Seq<ClientEntry>, tok: Seq<char>, i: int)
    requires
        0 <= i < entries.len(),
        entries[i].state_token@ == tok,
    ensures
        find_token(entries, tok) is Some,
{
    lemma_find_token_hits_from(entries, tok, 0, i);
}

proof fn lemma_find_token_hits_from(entries: Seq<ClientEntry>, tok: Seq<char>, j: int, i: int)
    requires
        0 <= j <= i < entries.len(),
        entries[i].state_token@ == tok,
    ensures
        find_token_from(entries, tok, j) is Some,
    decreases i - j,
{
    if j < i && entries[j].state_token@ != tok {
        lemma_find_token_hits_from(entries, tok, j + 1, i);
    }
}

} // verus!
