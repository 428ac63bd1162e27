//! The shared connection registry: the process-wide directory of active
//! connection handles. Lookup-or-create is one atomic step of the directory,
//! and `with_handle` gives an operation exclusive access to one handle — it
//! takes the handle out, runs the operation to completion, and puts the
//! result back — so the effects of two operations on the same session never
//! interleave.

use vstd::prelude::*;

use crate::config::Config;
use crate::errors::{ConnectionError, RegistryError};
use crate::handle::{fresh_handle, same_session, Handle};

verus! {

/// No two registered handles belong to the same user.
pub open spec fn users_unique(s: Seq<Handle>) -> bool {
    forall|i: int, j: int|
        0 <= i < j < s.len() ==> s[i].user_spec() != s[j].user_spec()
}

/// Some registered handle carries this session identifier.
pub open spec fn has_session(s: Seq<Handle>, session_id: u128) -> bool {
    exists|i: int| 0 <= i < s.len() && s[i].session_id_spec() == session_id
}

/// The first index carrying this session identifier.
pub open spec fn session_index(s: Seq<Handle>, session_id: u128) -> int
    decreases s.len(),
{
    if s.len() == 0 {
        0
    } else if s[0].session_id_spec() == session_id {
        0
    } else {
        1 + session_index(s.drop_first(), session_id)
    }
}

/// Some registered handle belongs to this user.
pub open spec fn has_user(s: Seq<Handle>, user: Seq<char>) -> bool {
    exists|i: int| 0 <= i < s.len() && s[i].user_spec() == user
}

/// Some registered handle belongs to this user and is still active.
pub open spec fn has_active_user(s: Seq<Handle>, user: Seq<char>) -> bool {
    exists|i: int| 0 <= i < s.len() && s[i].user_spec() == user && s[i].is_active()
}

/// The index of this user's handle (unique when users are unique).
pub open spec fn user_index(s: Seq<Handle>, user: Seq<char>) -> int {
    choose|i: int| 0 <= i < s.len() && s[i].user_spec() == user
}

proof fn lemma_session_index_at(s: Seq<Handle>, session_id: u128, i: int)
    requires
        0 <= i < s.len(),
        s[i].session_id_spec() == session_id,
        forall|j: int| 0 <= j < i ==> s[j].session_id_spec() != session_id,
    ensures
        session_index(s, session_id) == i,
    decreases i,
{
    if i > 0 {
        assert(s.drop_first()[i - 1] == s[i]);
        assert(forall|j: int| 0 <= j < i - 1 ==> s.drop_first()[j] == s[j + 1]);
        lemma_session_index_at(s.drop_first(), session_id, i - 1);
    }
}

/// Law: the registry keeps at most one handle per user — any two entries for
/// the same user are the same entry.
pub proof fn lemma_one_handle_per_user(s: Seq<Handle>, user: Seq<char>, i: int, j: int)
    requires
        users_unique(s),
        0 <= i < s.len(),
        0 <= j < s.len(),
        s[i].user_spec() == user,
        s[j].user_spec() == user,
    ensures
        i == j,
{
}

/// Finds the first handle carrying `session_id`.
fn find_session_index(entries: &Vec<Handle>, session_id: u128) -> (r: Option<usize>)
    ensures
        match r {
            Some(i) => {
                &&& i < entries@.len()
                &&& entries@[i as int].session_id_spec() == session_id
                &&& i as int == session_index(entries@, session_id)
                &&& has_session(entries@, session_id)
            },
            None => !has_session(entries@, session_id),
        },
{
    let mut i: usize = 0;
    while i < entries.len()
        invariant
            i <= entries.len(),
            forall|j: int| 0 <= j < i ==> entries@[j].session_id_spec() != session_id,
        decreases entries.len() - i,
    {
        if entries[i].session_id() == session_id {
            proof {
                lemma_session_index_at(entries@, session_id, i as int);
            }
            return Some(i);
        }
        i = i + 1;
    }
    None
}

/// Finds this user's handle, whatever its state.
fn find_user_index(entries: &Vec<Handle>, user: &String) -> (r: Option<usize>)
    ensures
        match r {
            Some(i) => i < entries@.len() && entries@[i as int].user_spec() == user@,
            None => !has_user(entries@, user@),
        },
{
    let mut i: usize = 0;
    while i < entries.len()
        invariant
            i <= entries.len(),
            forall|j: int| 0 <= j < i ==> entries@[j].user_spec() != user@,
        decreases entries.len() - i,
    {
        if entries[i].owns(user) {
            return Some(i);
        }
        i = i + 1;
    }
    None
}

/// The process-wide directory of live connection handles.
pub struct Registry {
    entries: Vec<Handle>,
}

impl Registry {
    /// The registered handles, in registration order.
    pub closed spec fn entries_spec(&self) -> Seq<Handle> {
        self.entries@
    }

    /// Every registered handle is well formed, and no user has two.
    pub open spec fn wf(&self) -> bool {
        &&& users_unique(self.entries_spec())
        &&& forall|i: int|
            0 <= i < self.entries_spec().len() ==> (#[trigger] self.entries_spec()[i]).wf()
    }

    /// An empty registry.
    pub fn new() -> (r: Registry)
        ensures
            r.wf(),
            r.entries_spec() == Seq::<Handle>::empty(),
    {
        Registry { entries: Vec::new() }
    }

    /// How many sessions are live.
    pub fn len(&self) -> (r: usize)
        ensures
            r == self.entries_spec().len(),
    {
        self.entries.len()
    }

    /// Returns the session identifier of the existing handle for `user_id`
    /// when one is present and still active; otherwise constructs a fresh
    /// handle — replacing a broken one for the same user, registering a first
    /// one otherwise — in one atomic step of the directory, so concurrent
    /// callers serialized through it can never register two handles for one
    /// new user.
    pub fn get_or_create(&mut self, user_id: &str, config: Config) -> (r: Result<
        u128,
        ConnectionError,
    >)
        requires
            old(self).wf(),
        ensures
            final(self).wf(),
            has_active_user(old(self).entries_spec(), user_id@) ==> (*final(self) == *old(self) && (
            r matches Ok(sid) && sid == old(self).entries_spec()[
                user_index(old(self).entries_spec(), user_id@)
            ].session_id_spec())),
            !has_active_user(old(self).entries_spec(), user_id@) ==> {
                &&& (r matches Err(_) ==> *final(self) == *old(self))
                &&& (r matches Ok(sid) ==> exists|h: Handle|
                    {
                        &&& #[trigger] fresh_handle(h, config, user_id@)
                        &&& h.session_id_spec() == sid
                        &&& (has_user(old(self).entries_spec(), user_id@) ==> final(self).entries_spec()
                            == old(self).entries_spec().update(
                            user_index(old(self).entries_spec(), user_id@),
                            h,
                        ))
                        &&& (!has_user(old(self).entries_spec(), user_id@) ==> final(self).entries_spec()
                            == old(self).entries_spec().push(h))
                    })
            },
            !has_active_user(old(self).entries_spec(), user_id@) && config.is_simulated() ==> {
                &&& ((r is Ok) <==> (config.sim().reachable && config.sim().auth_ok))
                &&& (!config.sim().reachable ==> (r matches Err(e) && e is Unreachable))
                &&& (config.sim().reachable && !config.sim().auth_ok ==> (r matches Err(e)
                    && e is AuthFailed))
            },
    {
        let user_key: String = user_id.to_owned();
        match find_user_index(&self.entries, &user_key) {
            Some(i) => {
                proof {
                    lemma_one_handle_per_user(
                        self.entries@,
                        user_id@,
                        i as int,
                        user_index(self.entries@, user_id@),
                    );
                }
                if self.entries[i].active() {
                    Ok(self.entries[i].session_id())
                } else {
                    match Handle::new(config, user_id) {
                        Err(e) => Err(e),
                        Ok(h) => {
                            let sid = h.session_id();
                            let ghost before = self.entries@;
                            let _broken = self.entries.remove(i);
                            self.entries.insert(i, h);
                            proof {
                                assert(self.entries@ =~= before.update(i as int, h));
                                assert forall|p: int, q: int|
                                    0 <= p < q < self.entries@.len() implies self.entries@[p].user_spec()
                                    != self.entries@[q].user_spec() by {
                                    assert(before[p].user_spec() != before[q].user_spec());
                                }
                            }
                            Ok(sid)
                        },
                    }
                }
            },
            None => {
                match Handle::new(config, user_id) {
                    Err(e) => Err(e),
                    Ok(h) => {
                        let sid = h.session_id();
                        let ghost before = self.entries@;
                        self.entries.push(h);
                        proof {
                            assert forall|p: int, q: int|
                                0 <= p < q < self.entries@.len() implies self.entries@[p].user_spec()
                                != self.entries@[q].user_spec() by {
                                if q < before.len() {
                                    assert(before[p].user_spec() != before[q].user_spec());
                                } else {
                                    assert(!has_user(before, user_id@));
                                    assert(self.entries@[q].user_spec() == user_id@);
                                }
                            }
                        }
                        Ok(sid)
                    },
                }
            },
        }
    }

    /// Runs `op` with exclusive access to the handle registered under
    /// `session_id`: the handle is taken out of the directory, `op` consumes
    /// it and returns the updated handle with its result, and the updated
    /// handle is put back in place — one atomic replacement, with every other
    /// entry untouched.
    pub fn with_handle<R, F: FnOnce(Handle) -> (Handle, R)>(&mut self, session_id: u128, op: F) -> (r:
        Result<R, RegistryError>)
        requires
            old(self).wf(),
            forall|h: Handle| h.wf() ==> #[trigger] call_requires(op, (h,)),
            forall|h: Handle, out: (Handle, R)|
                h.wf() && #[trigger] call_ensures(op, (h,), out) ==> out.0.wf() && same_session(
                    h,
                    out.0,
                ),
        ensures
            final(self).wf(),
            !has_session(old(self).entries_spec(), session_id) ==> (*final(self) == *old(self) && r
                == Err::<R, RegistryError>(RegistryError::NotFound)),
            has_session(old(self).entries_spec(), session_id) ==> {
                let i = session_index(old(self).entries_spec(), session_id);
                exists|h2: Handle, res: R|
                    {
                        &&& #[trigger] call_ensures(op, (old(self).entries_spec()[i],), (h2, res))
                        &&& r == Ok::<R, RegistryError>(res)
                        &&& final(self).entries_spec() == old(self).entries_spec().update(i, h2)
                    }
            },
    {
        match find_session_index(&self.entries, session_id) {
            None => Err(RegistryError::NotFound),
            Some(i) => {
                let ghost before = self.entries@;
                let h = self.entries.remove(i);
                let (h2, res) = op(h);
                self.entries.insert(i, h2);
                proof {
                    assert(self.entries@ =~= before.update(i as int, h2));
                    assert forall|p: int, q: int|
                        0 <= p < q < self.entries@.len() implies self.entries@[p].user_spec()
                        != self.entries@[q].user_spec() by {
                        assert(before[p].user_spec() != before[q].user_spec());
                    }
                }
                Ok(res)
            },
        }
    }

    /// Destroys and evicts the handle registered under `session_id`;
    /// idempotent when none is registered.
    pub fn remove(&mut self, session_id: u128)
        requires
            old(self).wf(),
        ensures
            final(self).wf(),
            !has_session(old(self).entries_spec(), session_id) ==> final(self).entries_spec()
                == old(self).entries_spec(),
            has_session(old(self).entries_spec(), session_id) ==> final(self).entries_spec()
                == old(self).entries_spec().remove(
                session_index(old(self).entries_spec(), session_id),
            ),
    {
        match find_session_index(&self.entries, session_id) {
            None => (),
            Some(i) => {
                let ghost before = self.entries@;
                let _gone = self.entries.remove(i);
                proof {
                    assert forall|p: int, q: int|
                        0 <= p < q < self.entries@.len() implies self.entries@[p].user_spec()
                        != self.entries@[q].user_spec() by {
                        let p0 = if p < i as int { p } else { p + 1 };
                        let q0 = if q < i as int { q } else { q + 1 };
                        assert(self.entries@[p] == before[p0]);
                        assert(self.entries@[q] == before[q0]);
                        assert(before[p0].user_spec() != before[q0].user_spec());
                    }
                }
            },
        }
    }
}

} // verus!
