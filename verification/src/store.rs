//! Presence store: the Users table and its idempotent merge. A
//! snapshot is inserted when its id is absent; when the id is present,
//! the tracked columns (username, display name, bio, status, status
//! description) are replaced in full and every other column is left
//! untouched. Ids are unique, and a just-written snapshot is readable
//! back under its id with exactly the written values.

use crate::events::{opt_bytes_view, User, UserView};
use crate::json::{bytes_eq, copy_bytes};
use vstd::pervasive::VecAdditionalExecFns;
use vstd::prelude::*;

verus! {

/// Spec-level row of the Users table. `created_at` and `updated_at`
/// stand for the columns the merge's conflict path must not touch.
pub struct UserRecordView {
    pub id: Seq<u8>,
    pub username: Option<Seq<u8>>,
    pub display_name: Seq<u8>,
    pub bio: Seq<u8>,
    pub status: Seq<u8>,
    pub status_description: Seq<u8>,
    pub created_at: int,
    pub updated_at: int,
}

/// One stored row of the Users table.
pub struct UserRecord {
    pub id: Vec<u8>,
    pub username: Option<Vec<u8>>,
    pub display_name: Vec<u8>,
    pub bio: Vec<u8>,
    pub status: Vec<u8>,
    pub status_description: Vec<u8>,
    /// Unix milliseconds of first sighting; never changed by upsert.
    pub created_at: i64,
    /// Unix milliseconds of first sighting; the conflict path leaves
    /// it untouched.
    pub updated_at: i64,
}

impl View for UserRecord {
    type V = UserRecordView;

    open spec fn view(&self) -> UserRecordView {
        UserRecordView {
            id: self.id@,
            username: opt_bytes_view(self.username),
            display_name: self.display_name@,
            bio: self.bio@,
            status: self.status@,
            status_description: self.status_description@,
            created_at: self.created_at as int,
            updated_at: self.updated_at as int,
        }
    }
}

/// The row a first sighting creates.
pub open spec fn rec_of_snapshot(u: UserView, now: int) -> UserRecordView {
    UserRecordView {
        id: u.id,
        username: u.username,
        display_name: u.display_name,
        bio: u.bio,
        status: u.status,
        status_description: u.status_description,
        created_at: now,
        updated_at: now,
    }
}

/// The row after the conflict path: the five tracked columns are
/// replaced with the snapshot's values, everything else is kept.
pub open spec fn merge_into(old_rec: UserRecordView, u: UserView) -> UserRecordView {
    UserRecordView {
        id: old_rec.id,
        username: u.username,
        display_name: u.display_name,
        bio: u.bio,
        status: u.status,
        status_description: u.status_description,
        created_at: old_rec.created_at,
        updated_at: old_rec.updated_at,
    }
}

/// Index of the first row with the given id, `-1` when absent.
pub open spec fn find_idx(s: Seq<UserRecordView>, id: Seq<u8>) -> int
    decreases s.len(),
{
    if s.len() == 0 {
        -1
    } else if s[0].id == id {
        0
    } else {
        let r = find_idx(s.subrange(1, s.len() as int), id);
        if r < 0 {
            -1
        } else {
            r + 1
        }
    }
}

/// Number of rows with the given id.
pub open spec fn count_id(s: Seq<UserRecordView>, id: Seq<u8>) -> nat
    decreases s.len(),
{
    if s.len() == 0 {
        0
    } else {
        (if s[0].id == id {
            1nat
        } else {
            0nat
        }) + count_id(s.subrange(1, s.len() as int), id)
    }
}

/// The whole effect of one upsert on the table.
pub open spec fn upsert_effect(s: Seq<UserRecordView>, u: UserView, now: int) -> Seq<
    UserRecordView,
> {
    let i = find_idx(s, u.id);
    if i < 0 {
        s.push(rec_of_snapshot(u, now))
    } else {
        s.update(i, merge_into(s[i], u))
    }
}

/// Ids are unique across the table.
pub open spec fn wf_rows(s: Seq<UserRecordView>) -> bool {
    forall|i: int, j: int| 0 <= i < j < s.len() ==> s[i].id != s[j].id
}

/// What `find_idx` finds: the first matching row, or nothing at all.
proof fn lemma_find_idx(s: Seq<UserRecordView>, id: Seq<u8>)
    ensures
        find_idx(s, id) == -1 ==> forall|k: int| 0 <= k < s.len() ==> s[k].id != id,
        find_idx(s, id) >= 0 ==> find_idx(s, id) < s.len() && s[find_idx(s, id)].id == id && forall|
            k: int,
        | 0 <= k < find_idx(s, id) ==> s[k].id != id,
    decreases s.len(),
{
    if s.len() == 0 {
    } else if s[0].id == id {
    } else {
        let rest = s.subrange(1, s.len() as int);
        lemma_find_idx(rest, id);
        assert(forall|k: int| 0 <= k < rest.len() ==> rest[k] == s[k + 1]);
        let r = find_idx(rest, id);
        if r < 0 {
            assert forall|k: int| 0 <= k < s.len() implies s[k].id != id by {
                if k >= 1 {
                    assert(rest[k - 1] == s[k]);
                }
            }
        } else {
            assert(s[r + 1] == rest[r]);
            assert forall|k: int| 0 <= k < r + 1 implies s[k].id != id by {
                if k >= 1 {
                    assert(rest[k - 1] == s[k]);
                }
            }
        }
    }
}

/// A position that matches first is the one `find_idx` returns.
proof fn lemma_find_idx_at(s: Seq<UserRecordView>, id: Seq<u8>, k: int)
    requires
        0 <= k < s.len(),
        s[k].id == id,
        forall|j: int| 0 <= j < k ==> s[j].id != id,
    ensures
        find_idx(s, id) == k,
{
    lemma_find_idx(s, id);
    let f = find_idx(s, id);
    if f == -1 {
        assert(s[k].id != id);
    } else if f < k {
        assert(s[f].id != id);
    } else if f > k {
        assert(s[k].id != id);
    }
}

/// Under unique ids, a present id is counted exactly once.
proof fn lemma_count_unique(s: Seq<UserRecordView>, id: Seq<u8>)
    requires
        wf_rows(s),
    ensures
        (exists|k: int| 0 <= k < s.len() && s[k].id == id) ==> count_id(s, id) == 1,
        (forall|k: int| 0 <= k < s.len() ==> s[k].id != id) ==> count_id(s, id) == 0,
    decreases s.len(),
{
    if s.len() == 0 {
    } else {
        let rest = s.subrange(1, s.len() as int);
        assert(forall|k: int| 0 <= k < rest.len() ==> rest[k] == s[k + 1]);
        assert(wf_rows(rest));
        lemma_count_unique(rest, id);
        if s[0].id == id {
            assert(forall|k: int| 0 <= k < rest.len() ==> rest[k].id != id);
        } else {
            if exists|k: int| 0 <= k < s.len() && s[k].id == id {
                let k = choose|k: int| 0 <= k < s.len() && s[k].id == id;
                assert(rest[k - 1].id == id);
            }
        }
    }
}

/// One upsert keeps ids unique, leaves every other row unchanged, and
/// stores the snapshot's tracked fields under its id.
pub proof fn lemma_upsert_effect(s: Seq<UserRecordView>, u: UserView, now: int)
    requires
        wf_rows(s),
    ensures
        wf_rows(upsert_effect(s, u, now)),
        find_idx(upsert_effect(s, u, now), u.id) >= 0,
        ({
            let s2 = upsert_effect(s, u, now);
            let r = s2[find_idx(s2, u.id)];
            r.id == u.id && r.username == u.username && r.display_name == u.display_name && r.bio
                == u.bio && r.status == u.status && r.status_description == u.status_description
        }),
        count_id(upsert_effect(s, u, now), u.id) == 1,
        forall|k: int|
            0 <= k < s.len() && s[k].id != u.id ==> upsert_effect(s, u, now)[k] == s[k],
{
    lemma_find_idx(s, u.id);
    let i = find_idx(s, u.id);
    let s2 = upsert_effect(s, u, now);
    if i < 0 {
        assert(forall|k: int| 0 <= k < s.len() ==> s[k].id != u.id);
        assert(s2 == s.push(rec_of_snapshot(u, now)));
        assert(s2[s.len() as int].id == u.id);
        assert(wf_rows(s2));
        lemma_find_idx_at(s2, u.id, s.len() as int);
    } else {
        assert(s2 == s.update(i, merge_into(s[i], u)));
        assert(s2[i].id == u.id);
        assert(forall|k: int| 0 <= k < s2.len() && k != i ==> s2[k] == s[k]);
        assert(wf_rows(s2));
        lemma_find_idx_at(s2, u.id, i);
    }
    lemma_count_unique(s2, u.id);
    assert(s2[find_idx(s2, u.id)].id == u.id);
}

/// Upserting a snapshot and then another with the same id leaves one
/// row for that id, holding the second snapshot's tracked fields.
pub proof fn lemma_upsert_same_id_twice(
    s: Seq<UserRecordView>,
    u1: UserView,
    u2: UserView,
    t1: int,
    t2: int,
)
    requires
        wf_rows(s),
        u1.id == u2.id,
    ensures
        ({
            let s2 = upsert_effect(upsert_effect(s, u1, t1), u2, t2);
            &&& count_id(s2, u2.id) == 1
            &&& s2[find_idx(s2, u2.id)].display_name == u2.display_name
            &&& s2[find_idx(s2, u2.id)].username == u2.username
            &&& s2[find_idx(s2, u2.id)].bio == u2.bio
            &&& s2[find_idx(s2, u2.id)].status == u2.status
            &&& s2[find_idx(s2, u2.id)].status_description == u2.status_description
        }),
{
    lemma_upsert_effect(s, u1, t1);
    lemma_upsert_effect(upsert_effect(s, u1, t1), u2, t2);
}

/// An owned copy of an optional byte string.
pub fn copy_opt_bytes(v: &Option<Vec<u8>>) -> (r: Option<Vec<u8>>)
    ensures
        opt_bytes_view(r) == opt_bytes_view(*v),
{
    match v {
        Some(b) => Some(copy_bytes(b)),
        None => None,
    }
}

/// The row a snapshot becomes on first sighting.
pub fn record_from_snapshot(u: &User, now: i64) -> (r: UserRecord)
    ensures
        r@ == rec_of_snapshot(u@, now as int),
{
    UserRecord {
        id: copy_bytes(&u.id),
        username: copy_opt_bytes(&u.username),
        display_name: copy_bytes(&u.display_name),
        bio: copy_bytes(&u.bio),
        status: copy_bytes(&u.status),
        status_description: copy_bytes(&u.status_description),
        created_at: now,
        updated_at: now,
    }
}

/// An owned copy of a stored row.
pub fn copy_record(r: &UserRecord) -> (c: UserRecord)
    ensures
        c@ == r@,
{
    UserRecord {
        id: copy_bytes(&r.id),
        username: copy_opt_bytes(&r.username),
        display_name: copy_bytes(&r.display_name),
        bio: copy_bytes(&r.bio),
        status: copy_bytes(&r.status),
        status_description: copy_bytes(&r.status_description),
        created_at: r.created_at,
        updated_at: r.updated_at,
    }
}

/// The Users table with its merge rules.
pub struct PresenceStore {
    users: Vec<UserRecord>,
}

impl View for PresenceStore {
    type V = Seq<UserRecordView>;

    closed spec fn view(&self) -> Seq<UserRecordView> {
        Seq::new(self.users@.len(), |k: int| self.users@[k]@)
    }
}

impl PresenceStore {
    /// Ids are unique across the stored rows.
    pub open spec fn wf(&self) -> bool {
        wf_rows(self@)
    }

    pub fn new() -> (s: PresenceStore)
        ensures
            s.wf(),
            s@ == Seq::<UserRecordView>::empty(),
    {
        let s = PresenceStore { users: Vec::new() };
        proof {
            assert(s@ =~= Seq::<UserRecordView>::empty());
        }
        s
    }

    /// Number of stored rows.
    pub fn len(&self) -> (n: usize)
        ensures
            n == self@.len(),
    {
        self.users.len()
    }

    /// Index of the row holding `id`, if any.
    fn find_index(&self, id: &[u8]) -> (r: Option<usize>)
        ensures
            match r {
                Some(i) => find_idx(self@, id@) == i as int && i < self.users.len(),
                None => find_idx(self@, id@) == -1,
            },
    {
        let mut idx: usize = 0;
        while idx < self.users.len()
            invariant
                idx <= self.users.len(),
                forall|k: int| 0 <= k < idx ==> self@[k].id != id@,
            decreases self.users.len() - idx,
        {
            if bytes_eq(self.users[idx].id.as_slice(), id) {
                proof {
                    lemma_find_idx_at(self@, id@, idx as int);
                }
                return Some(idx);
            }
            idx = idx + 1;
        }
        proof {
            lemma_find_idx(self@, id@);
            if find_idx(self@, id@) >= 0 {
                assert(self@[find_idx(self@, id@)].id != id@);
            }
        }
        None
    }

    /// The stored row for `id`, if any.
    pub fn find_user(&self, id: &[u8]) -> (r: Option<&UserRecord>)
        ensures
            match r {
                Some(rec) => find_idx(self@, id@) >= 0 && rec@ == self@[find_idx(self@, id@)],
                None => find_idx(self@, id@) == -1,
            },
    {
        match self.find_index(id) {
            Some(i) => Some(&self.users[i]),
            None => None,
        }
    }

    /// Merge one snapshot: insert the row if its id is absent, else
    /// replace the five tracked columns and leave the others alone.
    /// Returns the stored row, which carries exactly the snapshot's
    /// tracked values: read-after-write needs no second query.
    pub fn upsert_user(&mut self, u: &User, now: i64) -> (rec: UserRecord)
        requires
            old(self).wf(),
        ensures
            final(self).wf(),
            final(self)@ == upsert_effect(old(self)@, u@, now as int),
            rec@.id == u@.id,
            rec@.username == u@.username,
            rec@.display_name == u@.display_name,
            rec@.bio == u@.bio,
            rec@.status == u@.status,
            rec@.status_description == u@.status_description,
            count_id(final(self)@, u@.id) == 1,
    {
        proof {
            lemma_upsert_effect(old(self)@, u@, now as int);
        }
        match self.find_index(u.id.as_slice()) {
            None => {
                let rec = record_from_snapshot(u, now);
                let out = copy_record(&rec);
                self.users.push(rec);
                proof {
                    assert(self@ =~= upsert_effect(old(self)@, u@, now as int));
                }
                out
            },
            Some(i) => {
                let old_rec = &self.users[i];
                let merged = UserRecord {
                    id: copy_bytes(&old_rec.id),
                    username: copy_opt_bytes(&u.username),
                    display_name: copy_bytes(&u.display_name),
                    bio: copy_bytes(&u.bio),
                    status: copy_bytes(&u.status),
                    status_description: copy_bytes(&u.status_description),
                    created_at: old_rec.created_at,
                    updated_at: old_rec.updated_at,
                };
                let out = copy_record(&merged);
                self.users.set(i, merged);
                proof {
                    assert(self@ =~= upsert_effect(old(self)@, u@, now as int));
                }
                proof {
                    lemma_find_idx(old(self)@, u@.id);
                    assert(out@.id == u@.id);
                }
                out
            },
        }
    }
}

} // verus!
