//! The token store, modelled as plain rows: users, active state tokens,
//! and provider-keyed token rows. The schema's invariants are carried
//! here: one row per user in each provider table, one row per state in
//! the active-key table, and re-authorizing a user upserts its row and
//! bumps the version.

use vstd::prelude::*;

verus! {

/// A Twitch account known to the gateway.
pub struct TwitchUser {
    pub id: i64,
    pub joined_at_millis: i64,
}

impl TwitchUser {
    pub fn new(id: i64) -> (r: TwitchUser)
        ensures
            r.id == id,
    {
        TwitchUser { id, joined_at_millis: now_millis() }
    }
}

/// A Streamlabs account known to the gateway.
pub struct StreamlabsUser {
    pub id: i64,
    pub joined_at_millis: i64,
}

impl StreamlabsUser {
    pub fn new(id: i64) -> (r: StreamlabsUser)
        ensures
            r.id == id,
    {
        StreamlabsUser { id, joined_at_millis: now_millis() }
    }
}

/// An issued state token.
pub struct ActiveKey {
    pub state: String,
    pub created_at_millis: i64,
}

impl ActiveKey {
    pub fn new(state: String) -> (r: ActiveKey)
        ensures
            r.state@ == state@,
    {
        ActiveKey { state, created_at_millis: now_millis() }
    }
}

/// A Twitch token row, keyed by its user.
pub struct ActiveTwitchKey {
    pub id: i64,
    pub authentication: String,
    pub refresh: String,
    pub user: i64,
    pub state: String,
    pub version: i64,
}

impl ActiveTwitchKey {
    pub fn new(authentication: String, refresh: String, user: i64, state: String, version: i64)
        -> (r: ActiveTwitchKey)
        ensures
            r.id == 0,
            r.authentication@ == authentication@,
            r.refresh@ == refresh@,
            r.user == user,
            r.state@ == state@,
            r.version == version,
    {
        ActiveTwitchKey { id: 0, authentication, refresh, user, state, version }
    }
}

/// A Streamlabs token row, keyed by its user.
pub struct ActiveStreamLabsKey {
    pub id: i64,
    pub authentication: String,
    pub refresh: String,
    pub user: i64,
    pub state: String,
    pub version: i64,
}

impl ActiveStreamLabsKey {
    pub fn new(authentication: String, refresh: String, user: i64, state: String, version: i64)
        -> (r: ActiveStreamLabsKey)
        ensures
            r.id == 0,
            r.authentication@ == authentication@,
            r.refresh@ == refresh@,
            r.user == user,
            r.state@ == state@,
            r.version == version,
    {
        ActiveStreamLabsKey { id: 0, authentication, refresh, user, state, version }
    }
}

/// Relies on chrono::Utc::now: the current time in milliseconds since the
/// epoch. Nothing is promised of the value.
#[verifier::external_body]
fn now_millis() -> i64 {
    chrono::Utc::now().timestamp_millis()
}

/// The index of the first active key with the given state, from `i` on.
pub open spec fn find_active_from(rows: Seq<ActiveKey>, state: Seq<char>, i: int) -> Option<int>
    decreases rows.len() - i,
{
    if i < 0 || i >= rows.len() {
        None
    } else if rows[i].state@ == state {
        Some(i)
    } else {
        find_active_from(rows, state, i + 1)
    }
}

/// The index of the first Twitch row for the given user, from `i` on.
pub open spec fn find_twitch_user_from(rows: Seq<ActiveTwitchKey>, user: i64, i: int) -> Option<
    int,
>
    decreases rows.len() - i,
{
    if i < 0 || i >= rows.len() {
        None
    } else if rows[i].user == user {
        Some(i)
    } else {
        find_twitch_user_from(rows, user, i + 1)
    }
}

/// The index of the first Twitch row for the given state, from `i` on.
pub open spec fn find_twitch_state_from(rows: Seq<ActiveTwitchKey>, state: Seq<char>, i: int)
    -> Option<int>
    decreases rows.len() - i,
{
    if i < 0 || i >= rows.len() {
        None
    } else if rows[i].state@ == state {
        Some(i)
    } else {
        find_twitch_state_from(rows, state, i + 1)
    }
}

/// The index of the first Streamlabs row for the given user, from `i` on.
pub open spec fn find_sl_user_from(rows: Seq<ActiveStreamLabsKey>, user: i64, i: int) -> Option<
    int,
>
    decreases rows.len() - i,
{
    if i < 0 || i >= rows.len() {
        None
    } else if rows[i].user == user {
        Some(i)
    } else {
        find_sl_user_from(rows, user, i + 1)
    }
}

/// The index of the first Streamlabs row for the given state, from `i` on.
pub open spec fn find_sl_state_from(rows: Seq<ActiveStreamLabsKey>, state: Seq<char>, i: int)
    -> Option<int>
    decreases rows.len() - i,
{
    if i < 0 || i >= rows.len() {
        None
    } else if rows[i].state@ == state {
        Some(i)
    } else {
        find_sl_state_from(rows, state, i + 1)
    }
}

/// The index of the first Twitch account row with the given id, from `i`.
pub open spec fn find_tuser_from(rows: Seq<TwitchUser>, id: i64, i: int) -> Option<int>
    decreases rows.len() - i,
{
    if i < 0 || i >= rows.len() {
        None
    } else if rows[i].id == id {
        Some(i)
    } else {
        find_tuser_from(rows, id, i + 1)
    }
}

/// The index of the first Streamlabs account row with the given id, from
/// `i`.
pub open spec fn find_suser_from(rows: Seq<StreamlabsUser>, id: i64, i: int) -> Option<int>
    decreases rows.len() - i,
{
    if i < 0 || i >= rows.len() {
        None
    } else if rows[i].id == id {
        Some(i)
    } else {
        find_suser_from(rows, id, i + 1)
    }
}

/// The token store: the five tables, as rows.
pub struct TokenStore {
    pub active_keys: Vec<ActiveKey>,
    pub twitch_keys: Vec<ActiveTwitchKey>,
    pub streamlabs_keys: Vec<ActiveStreamLabsKey>,
    pub twitch_users: Vec<TwitchUser>,
    pub streamlabs_users: Vec<StreamlabsUser>,
}

impl TokenStore {
    /// Well-formedness: states unique among active keys, users unique in
    /// each provider table.
    pub open spec fn wf(self) -> bool {
        &&& forall|i: int, j: int|
            0 <= i < j < self.active_keys@.len() ==> self.active_keys@[i].state@
                != self.active_keys@[j].state@
        &&& forall|i: int, j: int|
            0 <= i < j < self.twitch_keys@.len() ==> self.twitch_keys@[i].user
                != self.twitch_keys@[j].user
        &&& forall|i: int, j: int|
            0 <= i < j < self.streamlabs_keys@.len() ==> self.streamlabs_keys@[i].user
                != self.streamlabs_keys@[j].user
    }

    /// An empty store.
    pub fn new() -> (r: TokenStore)
        ensures
            r.wf(),
            r.active_keys@.len() == 0,
            r.twitch_keys@.len() == 0,
            r.streamlabs_keys@.len() == 0,
    {
        TokenStore {
            active_keys: Vec::new(),
            twitch_keys: Vec::new(),
            streamlabs_keys: Vec::new(),
            twitch_users: Vec::new(),
            streamlabs_users: Vec::new(),
        }
    }

    /// Whether a state token has been issued.
    pub fn has_active_key(&self, state: &str) -> (r: bool)
        ensures
            r == (find_active_from(self.active_keys@, state@, 0) is Some),
    {
        let n = self.active_keys.len();
        let mut i: usize = 0;
        while i < n
            invariant
                n == self.active_keys@.len(),
                i <= n,
                find_active_from(self.active_keys@, state@, 0) == find_active_from(
                    self.active_keys@,
                    state@,
                    i as int,
                ),
            decreases n - i,
        {
            if crate::wire::str_eq(self.active_keys[i].state.as_str(), state) {
                return true;
            }
            i = i + 1;
        }
        false
    }

    /// Records a state token; a second insertion of the same state is
    /// ignored.
    pub fn insert_or_ignore_active_key(&mut self, state: String) -> (inserted: bool)
        requires
            old(self).wf(),
        ensures
            final(self).wf(),
            final(self).twitch_keys@ == old(self).twitch_keys@,
            final(self).streamlabs_keys@ == old(self).streamlabs_keys@,
            inserted == (find_active_from(old(self).active_keys@, state@, 0) is None),
            inserted ==> final(self).active_keys@.len() == old(self).active_keys@.len() + 1
                && final(self).active_keys@.last().state@ == state@ && forall|j: int|
                0 <= j < old(self).active_keys@.len() ==> final(self).active_keys@[j] == old(self).active_keys@[j],
            !inserted ==> final(self).active_keys@ == old(self).active_keys@,
            find_active_from(final(self).active_keys@, state@, 0) is Some,
    {
        if self.has_active_key(state.as_str()) {
            proof {
                lemma_active_found(self.active_keys@, state@, 0);
            }
            false
        } else {
            let ghost pre = self.active_keys@;
            let row = ActiveKey::new(state);
            proof {
                assert forall|i: int|
                    0 <= i < pre.len() implies pre[i].state@ != row.state@ by {
                    if pre[i].state@ == row.state@ {
                        lemma_active_hits(pre, row.state@, i);
                    }
                }
            }
            self.active_keys.push(row);
            proof {
                lemma_active_hits(self.active_keys@, row.state@, pre.len() as int);
            }
            true
        }
    }
}

/// If the scan finds an index, the row there carries the state.
proof fn lemma_active_found(rows: Seq<ActiveKey>, state: Seq<char>, i: int)
    requires
        0 <= i,
        find_active_from(rows, state, i) is Some,
    ensures
        find_active_from(rows, state, i) matches Some(k) && i <= k < rows.len()
            && rows[k].state@ == state,
    decreases rows.len() - i,
{
    if i < rows.len() && rows[i].state@ != state {
        lemma_active_found(rows, state, i + 1);
    }
}

/// If some row at `i` carries the state, the scan finds one.
proof fn lemma_active_hits(rows: Seq<ActiveKey>, state: Seq<char>, i: int)
    requires
        0 <= i < rows.len(),
        rows[i].state@ == state,
    ensures
        find_active_from(rows, state, 0) is Some,
{
    lemma_active_hits_from(rows, state, 0, i);
}

proof fn lemma_active_hits_from(rows: Seq<ActiveKey>, state: Seq<char>, j: int, i: int)
    requires
        0 <= j <= i < rows.len(),
        rows[i].state@ == state,
    ensures
        find_active_from(rows, state, j) is Some,
    decreases i - j,
{
    if j < i && rows[j].state@ != state {
        lemma_active_hits_from(rows, state, j + 1, i);
    }
}

/// The bumped version of a row: one more, capped at the integer limit.
pub open spec fn bump(v: i64) -> i64 {
    if v < i64::MAX { (v + 1) as i64 } else { v }
}

/// Field-wise correspondence of two Twitch rows.
pub open spec fn twitch_row_like(a: ActiveTwitchKey, b: ActiveTwitchKey) -> bool {
    &&& a.id == b.id
    &&& a.authentication@ == b.authentication@
    &&& a.refresh@ == b.refresh@
    &&& a.user == b.user
    &&& a.state@ == b.state@
    &&& a.version == b.version
}

/// Field-wise correspondence of two Streamlabs rows.
pub open spec fn sl_row_like(a: ActiveStreamLabsKey, b: ActiveStreamLabsKey) -> bool {
    &&& a.id == b.id
    &&& a.authentication@ == b.authentication@
    &&& a.refresh@ == b.refresh@
    &&& a.user == b.user
    &&& a.state@ == b.state@
    &&& a.version == b.version
}

impl TokenStore {
    /// The Twitch token row bound to a state token, if any.
    pub fn get_twitch_key_by_state(&self, state: &str) -> (r: Option<ActiveTwitchKey>)
        ensures
            match find_twitch_state_from(self.twitch_keys@, state@, 0) {
                Some(k) => r matches Some(row) && twitch_row_like(row, self.twitch_keys@[k]),
                None => r is None,
            },
    {
        let n = self.twitch_keys.len();
        let mut i: usize = 0;
        while i < n
            invariant
                n == self.twitch_keys@.len(),
                i <= n,
                find_twitch_state_from(self.twitch_keys@, state@, 0) == find_twitch_state_from(
                    self.twitch_keys@,
                    state@,
                    i as int,
                ),
            decreases n - i,
        {
            if crate::wire::str_eq(self.twitch_keys[i].state.as_str(), state) {
                let row = &self.twitch_keys[i];
                return Some(
                    ActiveTwitchKey {
                        id: row.id,
                        authentication: row.authentication.clone(),
                        refresh: row.refresh.clone(),
                        user: row.user,
                        state: row.state.clone(),
                        version: row.version,
                    },
                );
            }
            i = i + 1;
        }
        None
    }

    /// The Streamlabs token row bound to a state token, if any.
    pub fn get_sl_key_by_state(&self, state: &str) -> (r: Option<ActiveStreamLabsKey>)
        ensures
            match find_sl_state_from(self.streamlabs_keys@, state@, 0) {
                Some(k) => r matches Some(row) && sl_row_like(row, self.streamlabs_keys@[k]),
                None => r is None,
            },
    {
        let n = self.streamlabs_keys.len();
        let mut i: usize = 0;
        while i < n
            invariant
                n == self.streamlabs_keys@.len(),
                i <= n,
                find_sl_state_from(self.streamlabs_keys@, state@, 0) == find_sl_state_from(
                    self.streamlabs_keys@,
                    state@,
                    i as int,
                ),
            decreases n - i,
        {
            if crate::wire::str_eq(self.streamlabs_keys[i].state.as_str(), state) {
                let row = &self.streamlabs_keys[i];
                return Some(
                    ActiveStreamLabsKey {
                        id: row.id,
                        authentication: row.authentication.clone(),
                        refresh: row.refresh.clone(),
                        user: row.user,
                        state: row.state.clone(),
                        version: row.version,
                    },
                );
            }
            i = i + 1;
        }
        None
    }

    /// Upserts the Twitch token row of one user: a new user gets a fresh
    /// row at version 1; re-authorizing an existing user replaces its
    /// token material and state and bumps the version.
    pub fn upsert_twitch_key(&mut self, authentication: String, refresh: String, user: i64,
        state: String)
        requires
            old(self).wf(),
        ensures
            final(self).wf(),
            final(self).active_keys@ == old(self).active_keys@,
            final(self).streamlabs_keys@ == old(self).streamlabs_keys@,
            match find_twitch_user_from(old(self).twitch_keys@, user, 0) {
                None => {
                    &&& final(self).twitch_keys@.len() == old(self).twitch_keys@.len() + 1
                    &&& forall|j: int|
                        0 <= j < old(self).twitch_keys@.len() ==> final(self).twitch_keys@[j]
                            == old(self).twitch_keys@[j]
                    &&& final(self).twitch_keys@.last().authentication@ == authentication@
                    &&& final(self).twitch_keys@.last().refresh@ == refresh@
                    &&& final(self).twitch_keys@.last().user == user
                    &&& final(self).twitch_keys@.last().state@ == state@
                    &&& final(self).twitch_keys@.last().version == 1
                },
                Some(k) => {
                    &&& final(self).twitch_keys@.len() == old(self).twitch_keys@.len()
                    &&& forall|j: int|
                        0 <= j < old(self).twitch_keys@.len() && j != k ==> final(self).twitch_keys@[j] == old(self).twitch_keys@[j]
                    &&& final(self).twitch_keys@[k].authentication@ == authentication@
                    &&& final(self).twitch_keys@[k].refresh@ == refresh@
                    &&& final(self).twitch_keys@[k].user == user
                    &&& final(self).twitch_keys@[k].state@ == state@
                    &&& final(self).twitch_keys@[k].version == bump(
                        old(self).twitch_keys@[k].version,
                    )
                },
            },
    {
        let n = self.twitch_keys.len();
        let mut i: usize = 0;
        while i < n
            invariant
                old(self).wf(),
                *self == *old(self),
                n == self.twitch_keys@.len(),
                i <= n,
                find_twitch_user_from(self.twitch_keys@, user, 0) == find_twitch_user_from(
                    self.twitch_keys@,
                    user,
                    i as int,
                ),
            decreases n - i,
        {
            if self.twitch_keys[i].user == user {
                let old_version = self.twitch_keys[i].version;
                let new_version: i64 = if old_version < i64::MAX {
                    old_version + 1
                } else {
                    old_version
                };
                let row = &mut self.twitch_keys[i];
                row.authentication = authentication;
                row.refresh = refresh;
                row.state = state;
                row.version = new_version;
                return ;
            }
            i = i + 1;
        }
        let ghost pre = self.twitch_keys@;
        let row = ActiveTwitchKey { id: 0, authentication, refresh, user, state, version: 1 };
        self.twitch_keys.push(row);
        proof {
            assert forall|a: int, b: int|
                0 <= a < b < self.twitch_keys@.len() implies self.twitch_keys@[a].user
                != self.twitch_keys@[b].user by {
                if b == pre.len() {
                    lemma_twitch_user_misses_all(pre, user);
                }
            }
        }
    }

    /// Upserts the Streamlabs token row of one user, as for Twitch.
    pub fn upsert_sl_key(&mut self, authentication: String, refresh: String, user: i64,
        state: String)
        requires
            old(self).wf(),
        ensures
            final(self).wf(),
            final(self).active_keys@ == old(self).active_keys@,
            final(self).twitch_keys@ == old(self).twitch_keys@,
            match find_sl_user_from(old(self).streamlabs_keys@, user, 0) {
                None => {
                    &&& final(self).streamlabs_keys@.len() == old(self).streamlabs_keys@.len()
                        + 1
                    &&& forall|j: int|
                        0 <= j < old(self).streamlabs_keys@.len() ==> final(self).streamlabs_keys@[j] == old(self).streamlabs_keys@[j]
                    &&& final(self).streamlabs_keys@.last().authentication@ == authentication@
                    &&& final(self).streamlabs_keys@.last().refresh@ == refresh@
                    &&& final(self).streamlabs_keys@.last().user == user
                    &&& final(self).streamlabs_keys@.last().state@ == state@
                    &&& final(self).streamlabs_keys@.last().version == 1
                },
                Some(k) => {
                    &&& final(self).streamlabs_keys@.len() == old(self).streamlabs_keys@.len()
                    &&& forall|j: int|
                        0 <= j < old(self).streamlabs_keys@.len() && j != k ==> final(self).streamlabs_keys@[j] == old(self).streamlabs_keys@[j]
                    &&& final(self).streamlabs_keys@[k].authentication@ == authentication@
                    &&& final(self).streamlabs_keys@[k].refresh@ == refresh@
                    &&& final(self).streamlabs_keys@[k].user == user
                    &&& final(self).streamlabs_keys@[k].state@ == state@
                    &&& final(self).streamlabs_keys@[k].version == bump(
                        old(self).streamlabs_keys@[k].version,
                    )
                },
            },
    {
        let n = self.streamlabs_keys.len();
        let mut i: usize = 0;
        while i < n
            invariant
                old(self).wf(),
                *self == *old(self),
                n == self.streamlabs_keys@.len(),
                i <= n,
                find_sl_user_from(self.streamlabs_keys@, user, 0) == find_sl_user_from(
                    self.streamlabs_keys@,
                    user,
                    i as int,
                ),
            decreases n - i,
        {
            if self.streamlabs_keys[i].user == user {
                let old_version = self.streamlabs_keys[i].version;
                let new_version: i64 = if old_version < i64::MAX {
                    old_version + 1
                } else {
                    old_version
                };
                let row = &mut self.streamlabs_keys[i];
                row.authentication = authentication;
                row.refresh = refresh;
                row.state = state;
                row.version = new_version;
                return ;
            }
            i = i + 1;
        }
        let ghost pre = self.streamlabs_keys@;
        let row = ActiveStreamLabsKey { id: 0, authentication, refresh, user, state, version: 1 };
        self.streamlabs_keys.push(row);
        proof {
            assert forall|a: int, b: int|
                0 <= a < b < self.streamlabs_keys@.len() implies self.streamlabs_keys@[a].user
                != self.streamlabs_keys@[b].user by {
                if b == pre.len() {
                    lemma_sl_user_misses_all(pre, user);
                }
            }
        }
    }

    /// Records a Twitch account: an id already present leaves the table
    /// unchanged (the first insertion's joining time is kept); a new id
    /// appends exactly one row.
    pub fn insert_or_ignore_twitch_user(&mut self, id: i64)
        requires
            old(self).wf(),
        ensures
            final(self).wf(),
            final(self).active_keys@ == old(self).active_keys@,
            final(self).twitch_keys@ == old(self).twitch_keys@,
            final(self).streamlabs_keys@ == old(self).streamlabs_keys@,
            match find_tuser_from(old(self).twitch_users@, id, 0) {
                Some(k) => final(self).twitch_users@ == old(self).twitch_users@,
                None => final(self).twitch_users@.len() == old(self).twitch_users@.len() + 1
                    && final(self).twitch_users@.last().id == id && forall|j: int|
                    0 <= j < old(self).twitch_users@.len() ==> final(self).twitch_users@[j]
                        == old(self).twitch_users@[j],
            },
            exists|j: int|
                0 <= j < final(self).twitch_users@.len() && (#[trigger] final(self).twitch_users@[j]).id == id,
    {
        let n = self.twitch_users.len();
        let mut i: usize = 0;
        while i < n
            invariant
                old(self).wf(),
                *self == *old(self),
                n == self.twitch_users@.len(),
                i <= n,
                find_tuser_from(self.twitch_users@, id, 0) == find_tuser_from(
                    self.twitch_users@,
                    id,
                    i as int,
                ),
            decreases n - i,
        {
            if self.twitch_users[i].id == id {
                return ;
            }
            i = i + 1;
        }
        self.twitch_users.push(TwitchUser::new(id));
        proof {
            assert(self.twitch_users@.last().id == id);
        }
    }

    /// Records a Streamlabs account: an id already present leaves the
    /// table unchanged (the first insertion's joining time is kept); a
    /// new id appends exactly one row.
    pub fn insert_or_ignore_sl_user(&mut self, id: i64)
        requires
            old(self).wf(),
        ensures
            final(self).wf(),
            final(self).active_keys@ == old(self).active_keys@,
            final(self).twitch_keys@ == old(self).twitch_keys@,
            final(self).streamlabs_keys@ == old(self).streamlabs_keys@,
            match find_suser_from(old(self).streamlabs_users@, id, 0) {
                Some(k) => final(self).streamlabs_users@ == old(self).streamlabs_users@,
                None => final(self).streamlabs_users@.len() == old(self).streamlabs_users@.len()
                    + 1 && final(self).streamlabs_users@.last().id == id && forall|j: int|
                    0 <= j < old(self).streamlabs_users@.len() ==> final(self).streamlabs_users@[j] == old(self).streamlabs_users@[j],
            },
            exists|j: int|
                0 <= j < final(self).streamlabs_users@.len() && (#[trigger] final(self).streamlabs_users@[j]).id == id,
    {
        let n = self.streamlabs_users.len();
        let mut i: usize = 0;
        while i < n
            invariant
                old(self).wf(),
                *self == *old(self),
                n == self.streamlabs_users@.len(),
                i <= n,
                find_suser_from(self.streamlabs_users@, id, 0) == find_suser_from(
                    self.streamlabs_users@,
                    id,
                    i as int,
                ),
            decreases n - i,
        {
            if self.streamlabs_users[i].id == id {
                return ;
            }
            i = i + 1;
        }
        self.streamlabs_users.push(StreamlabsUser::new(id));
        proof {
            assert(self.streamlabs_users@.last().id == id);
        }
    }
}

/// A completed scan that found nothing means no row carries the user.
proof fn lemma_twitch_user_misses_all(rows: Seq<ActiveTwitchKey>, user: i64)
    requires
        find_twitch_user_from(rows, user, 0) is None,
    ensures
        forall|i: int| 0 <= i < rows.len() ==> (#[trigger] rows[i]).user != user,
{
    lemma_twitch_user_misses_from(rows, user, 0);
}

proof fn lemma_twitch_user_misses_from(rows: Seq<ActiveTwitchKey>, user: i64, i: int)
    requires
        0 <= i,
        find_twitch_user_from(rows, user, i) is None,
    ensures
        forall|j: int| i <= j < rows.len() ==> (#[trigger] rows[j]).user != user,
    decreases rows.len() - i,
{
    if i < rows.len() {
        lemma_twitch_user_misses_from(rows, user, i + 1);
    }
}

/// A completed scan that found nothing means no row carries the user.
proof fn lemma_sl_user_misses_all(rows: Seq<ActiveStreamLabsKey>, user: i64)
    requires
        find_sl_user_from(rows, user, 0) is None,
    ensures
        forall|i: int| 0 <= i < rows.len() ==> (#[trigger] rows[i]).user != user,
{
    lemma_sl_user_misses_from(rows, user, 0);
}

proof fn lemma_sl_user_misses_from(rows: Seq<ActiveStreamLabsKey>, user: i64, i: int)
    requires
        0 <= i,
        find_sl_user_from(rows, user, i) is None,
    ensures
        forall|j: int| i <= j < rows.len() ==> (#[trigger] rows[j]).user != user,
    decreases rows.len() - i,
{
    if i < rows.len() {
        lemma_sl_user_misses_from(rows, user, i + 1);
    }
}

} // verus!
