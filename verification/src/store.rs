//! The user repository: records keyed by a unique email. This in-memory
//! form carries the same interface and conflict semantics that a relational
//! implementation must provide — a duplicate email never overwrites the
//! stored row.

use vstd::prelude::*;

verus! {

/// A stored user record: created once at registration, read-only afterwards.
pub struct User {
    pub id: String,
    pub email: String,
    pub password_hash: String,
}

/// The mathematical content of a stored record.
pub struct UserView {
    pub id: Seq<char>,
    pub email: Seq<char>,
    pub password_hash: Seq<char>,
}

impl View for User {
    type V = UserView;

    open spec fn view(&self) -> UserView {
        UserView { id: self.id@, email: self.email@, password_hash: self.password_hash@ }
    }
}

/// What an insertion reports: the row was stored, the email was already
/// taken, or the storage layer itself failed.
pub enum InsertOutcome {
    Inserted,
    ConflictOnEmail,
    StorageError,
}

/// The user set, seen as a map from email to the stored record.
pub struct UserStore {
    users: Vec<User>,
}

impl View for UserStore {
    type V = Map<Seq<char>, UserView>;

    closed spec fn view(&self) -> Map<Seq<char>, UserView> {
        Map::new(
            |e: Seq<char>|
                exists|i: int| 0 <= i < self.users@.len() && self.users@[i].email@ == e,
            |e: Seq<char>|
                self.users@[choose|i: int|
                    0 <= i < self.users@.len() && self.users@[i].email@ == e]@,
        )
    }
}

impl UserStore {
    /// Emails are unique across the entire user set.
    pub closed spec fn wf(&self) -> bool {
        forall|i: int, j: int|
            0 <= i < j < self.users@.len() ==> self.users@[i].email@ != self.users@[j].email@
    }

    /// The map's domain is exactly the set of stored emails.
    proof fn lemma_view_domain(&self, e: Seq<char>)
        ensures
            self@.contains_key(e) <==> exists|i: int|
                0 <= i < self.users@.len() && self.users@[i].email@ == e,
    {
    }

    /// Each stored record is in the map under its own email.
    proof fn lemma_record_in_view(&self, i: int)
        requires
            self.wf(),
            0 <= i < self.users@.len(),
        ensures
            self@.contains_key(self.users@[i].email@),
            self@[self.users@[i].email@] == self.users@[i]@,
    {
        let e = self.users@[i].email@;
        assert(exists|k: int| 0 <= k < self.users@.len() && self.users@[k].email@ == e);
        let k = choose|k: int| 0 <= k < self.users@.len() && self.users@[k].email@ == e;
        if k != i {
            assert(self.users@[k].email@ != self.users@[i].email@);
        }
    }

    /// An empty repository.
    pub fn new() -> (r: UserStore)
        ensures
            r.wf(),
            r@ == Map::<Seq<char>, UserView>::empty(),
    {
        let r = UserStore { users: Vec::new() };
        proof {
            assert(r@ =~= Map::<Seq<char>, UserView>::empty());
        }
        r
    }

    /// The index holding this email, if any.
    fn find_email(&self, email: &String) -> (r: Option<usize>)
        requires
            self.wf(),
        ensures
            r matches Some(i) ==> i < self.users@.len() && self.users@[i as int].email@ == email@,
            r is None ==> !self@.contains_key(email@),
    {
        let n = self.users.len();
        let mut i: usize = 0;
        while i < n
            invariant
                n == self.users@.len(),
                i <= n,
                forall|k: int| 0 <= k < i ==> self.users@[k].email@ != email@,
            decreases n - i,
        {
            if self.users[i].email.eq(email) {
                return Some(i);
            }
            i += 1;
        }
        None
    }

    /// Looks a user up by email: the stored record under that key, or
    /// nothing when the email is unknown.
    pub fn lookup_by_email(&self, email: &String) -> (r: Option<User>)
        requires
            self.wf(),
        ensures
            r matches Some(u) ==> self@.contains_key(email@) && u@ == self@[email@],
            r is None <==> !self@.contains_key(email@),
    {
        match self.find_email(email) {
            Some(i) => {
                proof {
                    self.lemma_record_in_view(i as int);
                }
                let u = &self.users[i];
                Some(
                    User {
                        id: u.id.clone(),
                        email: u.email.clone(),
                        password_hash: u.password_hash.clone(),
                    },
                )
            },
            None => None,
        }
    }

    /// Inserts a new user keyed by email. A duplicate email is reported as
    /// a conflict and leaves the user set unchanged; otherwise exactly the
    /// given row is added. This in-memory form never fails on storage.
    pub fn insert_user(&mut self, id: &String, email: &String, password_hash: &String) -> (r:
        InsertOutcome)
        requires
            old(self).wf(),
        ensures
            final(self).wf(),
            !(r is StorageError),
            r is ConflictOnEmail <==> old(self)@.contains_key(email@),
            r is ConflictOnEmail ==> final(self)@ == old(self)@,
            r is Inserted ==> final(self)@ == old(self)@.insert(
                email@,
                UserView { id: id@, email: email@, password_hash: password_hash@ },
            ),
    {
        match self.find_email(email) {
            Some(i) => {
                proof {
                    self.lemma_record_in_view(i as int);
                }
                InsertOutcome::ConflictOnEmail
            },
            None => {
                let ghost pre = *self;
                self.users.push(
                    User {
                        id: id.clone(),
                        email: email.clone(),
                        password_hash: password_hash.clone(),
                    },
                );
                proof {
                    let n = pre.users@.len() as int;
                    assert forall|a: int, b: int| 0 <= a < b < self.users@.len() implies self.users@[a].email@
                        != self.users@[b].email@ by {
                        if b < n {
                            assert(pre.users@[a].email@ != pre.users@[b].email@);
                        } else {
                            assert(self.users@[b].email@ == email@);
                            if pre.users@[a].email@ == email@ {
                                pre.lemma_record_in_view(a);
                            }
                        }
                    }
                    assert forall|e: Seq<char>| true implies #[trigger] self@.contains_key(e)
                        == old(self)@.insert(
                        email@,
                        UserView { id: id@, email: email@, password_hash: password_hash@ },
                    ).contains_key(e) by {
                        self.lemma_view_domain(e);
                        pre.lemma_view_domain(e);
                        if e == email@ {
                            assert(self.users@[n].email@ == e);
                            assert(self@.contains_key(e));
                        } else {
                            if self@.contains_key(e) {
                                let k = choose|k: int|
                                    0 <= k < self.users@.len() && self.users@[k].email@ == e;
                                assert(0 <= k < n && pre.users@[k].email@ == e);
                            }
                            if pre@.contains_key(e) {
                                let k = choose|k: int|
                                    0 <= k < pre.users@.len() && pre.users@[k].email@ == e;
                                assert(self.users@[k].email@ == e);
                            }
                        }
                    }
                    assert forall|e: Seq<char>| self@.contains_key(e) implies #[trigger] self@[e]
                        == old(self)@.insert(
                        email@,
                        UserView { id: id@, email: email@, password_hash: password_hash@ },
                    )[e] by {
                        let k = choose|k: int|
                            0 <= k < self.users@.len() && self.users@[k].email@ == e;
                        if e == email@ {
                            if k < n {
                                pre.lemma_record_in_view(k);
                                assert(pre@.contains_key(email@));
                            }
                            assert(k == n);
                        } else {
                            assert(0 <= k < n);
                            self.lemma_record_in_view(k);
                            pre.lemma_record_in_view(k);
                            assert(pre.users@[k] == self.users@[k]);
                        }
                    }
                    assert(self@ =~= old(self)@.insert(
                        email@,
                        UserView { id: id@, email: email@, password_hash: password_hash@ },
                    ));
                }
                InsertOutcome::Inserted
            },
        }
    }

}

} // verus!
