use vstd::prelude::*;

use crate::users::{CreateUser, User, UserView};

verus! {

/// The in-process user store: the registered users and the next free
/// identifier.
///
/// Records sit in issuance order: the record at index `i` carries identifier
/// `i + 1`, so identifiers start at 1, are handed out without gaps, and are
/// never reused — the store is append-only.
pub struct DB {
    users: Vec<User>,
    next_id: u64,
}

impl View for DB {
    type V = Seq<UserView>;

    closed spec fn view(&self) -> Seq<UserView> {
        self.users@.map_values(|u: User| u@)
    }
}

/// `s` holds a record with identifier `k`.
pub open spec fn has_id(s: Seq<UserView>, k: u64) -> bool {
    exists|i: int| 0 <= i < s.len() && #[trigger] s[i].id == k
}

impl DB {
    /// Well-formed: the counter is one past the number of stored records, and
    /// the record at index `i` holds identifier `i + 1`.
    pub closed spec fn wf(self) -> bool {
        &&& self.next_id == self.users@.len() + 1
        &&& forall|i: int| 0 <= i < self.users@.len() ==> #[trigger] self.users@[i].id == i + 1
    }

    /// A fresh, empty store; the first identifier issued will be 1.
    pub fn new() -> (db: DB)
        ensures
            db.wf(),
            db@ == Seq::<UserView>::empty(),
    {
        let db = DB { users: Vec::new(), next_id: 1 };
        proof {
            assert(db@ =~= Seq::<UserView>::empty());
        }
        db
    }

    /// Allocate the next identifier, store a record built from `user_data`,
    /// and return a copy of the stored record.
    ///
    /// The new identifier is one past the previous count, hence strictly
    /// greater than every identifier already in the store; the store grows by
    /// exactly that record. The operation cannot fail.
    pub fn create_user(&mut self, user_data: CreateUser) -> (user: User)
        requires
            old(self).wf(),
            old(self)@.len() + 2 <= u64::MAX,
        ensures
            final(self).wf(),
            final(self)@ == old(self)@.push(user@),
            user.id == old(self)@.len() + 1,
            user.name@ == user_data.name@,
            user.email@ == user_data.email@,
            forall|i: int| 0 <= i < old(self)@.len() ==> #[trigger] old(self)@[i].id < user.id,
    {
        let id: u64 = self.next_id;
        self.next_id = self.next_id + 1;

        let user = User { id, name: user_data.name, email: user_data.email };

        self.users.push(user.clone());

        proof {
            assert(final(self)@ =~= old(self)@.push(user@));
        }
        user
    }

    /// A copy of every stored record, in issuance order.
    ///
    /// Read-only: the store itself is untouched.
    pub fn get_all_users(&self) -> (users: Vec<User>)
        ensures
            users@.len() == self@.len(),
            forall|i: int| 0 <= i < self@.len() ==> #[trigger] users@[i]@ == self@[i],
    {
        let mut result: Vec<User> = Vec::new();
        let mut idx: usize = 0;
        while idx < self.users.len()
            invariant
                idx <= self.users.len(),
                result@.len() == idx,
                forall|i: int| 0 <= i < idx as int ==> #[trigger] result@[i]@ == self@[i],
            decreases self.users.len() - idx,
        {
            let u = &self.users[idx];
            result.push(u.clone());
            idx = idx + 1;
        }
        result
    }
}

/// Identifiers in a well-formed store are pairwise distinct and strictly
/// increase in issuance order.
pub proof fn lemma_ids_strictly_increasing(db: DB)
    requires
        db.wf(),
    ensures
        forall|i: int, j: int|
            #![trigger db@[i].id, db@[j].id]
            0 <= i < j < db@.len() ==> db@[i].id < db@[j].id,
        forall|i: int, j: int|
            #![trigger db@[i].id, db@[j].id]
            0 <= i < j < db@.len() ==> db@[i].id != db@[j].id,
{
}

/// A well-formed store holding `n` records holds exactly the identifiers
/// `1 ..= n`: every stored identifier lies in that range, and every value in
/// that range is the identifier of some stored record.
pub proof fn lemma_ids_exactly_count(db: DB)
    requires
        db.wf(),
    ensures
        forall|i: int| 0 <= i < db@.len() ==> 1 <= #[trigger] db@[i].id <= db@.len(),
        forall|k: u64| 1 <= k <= db@.len() ==> #[trigger] has_id(db@, k),
        forall|k: u64| #[trigger] has_id(db@, k) ==> 1 <= k <= db@.len(),
{
    assert forall|k: u64| 1 <= k <= db@.len() implies #[trigger] has_id(db@, k) by {
        assert(db@[k - 1].id == k);
    }
}

} // verus!
