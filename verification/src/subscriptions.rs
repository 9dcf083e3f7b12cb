//! The subscription table: one upstream subscription per distinct request,
//! shared by every user that asked for it.
//!
//! The table is specified as a state machine over [`Table`], its mathematical
//! content. Each operation of [`SubscriptionData`] is proved to take exactly
//! the step that the corresponding function of [`Table`] describes.
use crate::error::Error;
use crate::json::{get_member, json_model, text_of, Json};
use crate::text_map::{TextMap, UserSet};
use serde_json::Value;
use vstd::prelude::*;

verus! {

/// The subscription that a notification is for, where it names one.
pub open spec fn notified(content: Json) -> Option<Seq<char>> {
    content.field("params"@).field("subscription"@).as_text()
}

/// One upstream subscription and the users that share it.
pub struct SubscriptionRecord {
    /// The id that the upstream node gave the subscription.
    pub upstream_id: String,
    /// The worker that owns the upstream subscription.
    pub node_id: usize,
    /// The canonical form of the subscribe request.
    pub request_fingerprint: String,
    /// The users currently subscribed.
    pub users: UserSet,
}

/// The content of a subscription record.
pub struct Subscription {
    pub upstream_id: Seq<char>,
    pub node_id: usize,
    pub users: Set<u64>,
}

/// The content of the subscription table.
pub struct Table {
    /// The live subscriptions, by request fingerprint.
    pub subscriptions: Map<Seq<char>, Subscription>,
    /// The fingerprints being subscribed upstream right now, each with the
    /// user whose call performs the upstream subscribe.
    pub in_flight: Map<Seq<char>, u64>,
}

impl Table {
    /// The table without any subscription.
    pub open spec fn empty() -> Table {
        Table { subscriptions: Map::empty(), in_flight: Map::empty() }
    }

    /// Whether the subscription for `fingerprint` has the upstream id `upstream_id`.
    pub open spec fn binds(self, fingerprint: Seq<char>, upstream_id: Seq<char>) -> bool {
        self.subscriptions.contains_key(fingerprint) && self.subscriptions[fingerprint].upstream_id
            == upstream_id
    }

    /// The fingerprint of the subscription with this upstream id, if there is one.
    pub open spec fn fingerprint_of(self, upstream_id: Seq<char>) -> Option<Seq<char>> {
        if exists|fp: Seq<char>| self.binds(fp, upstream_id) {
            Some(choose|fp: Seq<char>| self.binds(fp, upstream_id))
        } else {
            None
        }
    }

    /// The invariants of the table: a subscription always has a user, no two
    /// subscriptions share an upstream id, and nothing is both live and in flight.
    pub open spec fn wf(self) -> bool {
        &&& forall|fp: Seq<char>| #[trigger]
            self.subscriptions.contains_key(fp) ==> self.subscriptions[fp].users
                != Set::<u64>::empty()
        &&& forall|a: Seq<char>, b: Seq<char>, id: Seq<char>|
            self.binds(a, id) && self.binds(b, id) ==> a == b
        &&& forall|fp: Seq<char>| #[trigger]
            self.in_flight.contains_key(fp) ==> !self.subscriptions.contains_key(fp)
    }

    /// The table after `user` asked for the subscription `fingerprint`.
    pub open spec fn subscribe(self, user: u64, fingerprint: Seq<char>) -> Table {
        if self.subscriptions.contains_key(fingerprint) {
            let s = self.subscriptions[fingerprint];
            Table {
                subscriptions: self.subscriptions.insert(
                    fingerprint,
                    Subscription { users: s.users.insert(user), ..s },
                ),
                ..self
            }
        } else if self.in_flight.contains_key(fingerprint) {
            self
        } else {
            Table { in_flight: self.in_flight.insert(fingerprint, user), ..self }
        }
    }

    /// What `user` is told when asking for the subscription `fingerprint`:
    /// the upstream id where the subscription is live, otherwise whether the
    /// caller has to subscribe upstream or another call is already doing so.
    pub open spec fn subscribe_result(self, fingerprint: Seq<char>) -> Result<Seq<char>, Error> {
        if self.subscriptions.contains_key(fingerprint) {
            Ok(self.subscriptions[fingerprint].upstream_id)
        } else if self.in_flight.contains_key(fingerprint) {
            Err(Error::SubscriptionDedupLoss)
        } else {
            Err(Error::SubscriptionMissing)
        }
    }

    /// Whether registering `upstream_id` for `fingerprint` creates a record:
    /// the fingerprint must be in flight and the upstream id unused.
    pub open spec fn registers(self, fingerprint: Seq<char>, upstream_id: Seq<char>) -> bool {
        self.in_flight.contains_key(fingerprint) && self.fingerprint_of(upstream_id) is None
    }

    /// The table after the upstream subscribe for `fingerprint` came back.
    /// The user that performed it becomes the first user of the record.
    pub open spec fn register(
        self,
        fingerprint: Seq<char>,
        upstream_id: Seq<char>,
        node_id: usize,
    ) -> Table {
        if self.registers(fingerprint, upstream_id) {
            Table {
                subscriptions: self.subscriptions.insert(
                    fingerprint,
                    Subscription {
                        upstream_id,
                        node_id,
                        users: Set::<u64>::empty().insert(self.in_flight[fingerprint]),
                    },
                ),
                in_flight: self.in_flight.remove(fingerprint),
            }
        } else {
            Table { in_flight: self.in_flight.remove(fingerprint), ..self }
        }
    }

    /// The table after `user` gave up subscribing to `fingerprint` upstream.
    pub open spec fn abandon(self, user: u64, fingerprint: Seq<char>) -> Table {
        if self.in_flight.contains_key(fingerprint) && self.in_flight[fingerprint] == user {
            Table { in_flight: self.in_flight.remove(fingerprint), ..self }
        } else {
            self
        }
    }

    /// Whether `user` leaving the subscription `upstream_id` leaves it without users.
    pub open spec fn last_user(self, user: u64, upstream_id: Seq<char>) -> bool {
        match self.fingerprint_of(upstream_id) {
            Some(fp) => self.subscriptions[fp].users.remove(user) == Set::<u64>::empty(),
            None => false,
        }
    }

    /// The table after `user` left the subscription `upstream_id`.
    pub open spec fn unsubscribe(self, user: u64, upstream_id: Seq<char>) -> Table {
        match self.fingerprint_of(upstream_id) {
            Some(fp) => {
                let s = self.subscriptions[fp];
                if self.last_user(user, upstream_id) {
                    Table { subscriptions: self.subscriptions.remove(fp), ..self }
                } else {
                    Table {
                        subscriptions: self.subscriptions.insert(
                            fp,
                            Subscription { users: s.users.remove(user), ..s },
                        ),
                        ..self
                    }
                }
            },
            None => self,
        }
    }

    /// The node on which the upstream subscription is torn down when `user`
    /// leaves `upstream_id`: `Some` exactly when `user` is its last user.
    pub open spec fn teardown(self, user: u64, upstream_id: Seq<char>) -> Option<usize> {
        match self.fingerprint_of(upstream_id) {
            Some(fp) => if self.last_user(user, upstream_id) {
                Some(self.subscriptions[fp].node_id)
            } else {
                None
            },
            None => None,
        }
    }

    /// The users that a notification for `upstream_id` goes to.
    pub open spec fn audience(self, upstream_id: Seq<char>) -> Set<u64> {
        match self.fingerprint_of(upstream_id) {
            Some(fp) => self.subscriptions[fp].users,
            None => Set::empty(),
        }
    }
}

impl Table {
    /// The table after each of `users`, in turn, asked for `fingerprint`.
    pub open spec fn after_subscribers(self, users: Seq<u64>, fingerprint: Seq<char>) -> Table
        decreases users.len(),
    {
        if users.len() == 0 {
            self
        } else {
            self.after_subscribers(users.drop_last(), fingerprint).subscribe(
                users.last(),
                fingerprint,
            )
        }
    }

    /// Every step of the table keeps its invariants: a record always has a
    /// user, an upstream id belongs to one record, and a fingerprint is
    /// never both live and in flight.
    pub proof fn lemma_steps_keep_invariants(
        self,
        user: u64,
        fingerprint: Seq<char>,
        upstream_id: Seq<char>,
        node_id: usize,
    )
        requires
            self.wf(),
        ensures
            self.subscribe(user, fingerprint).wf(),
            self.register(fingerprint, upstream_id, node_id).wf(),
            self.abandon(user, fingerprint).wf(),
            self.unsubscribe(user, upstream_id).wf(),
    {
        self.lemma_subscribe_keeps_invariants(user, fingerprint);
        self.lemma_register_keeps_invariants(fingerprint, upstream_id, node_id);
        self.lemma_unsubscribe_keeps_invariants(user, upstream_id);
        let t = self.abandon(user, fingerprint);
        assert forall|a: Seq<char>, b: Seq<char>, id: Seq<char>|
            t.binds(a, id) && t.binds(b, id) implies a == b by {
            assert(self.binds(a, id));
            assert(self.binds(b, id));
        }
    }

    proof fn lemma_subscribe_keeps_invariants(self, user: u64, fingerprint: Seq<char>)
        requires
            self.wf(),
        ensures
            self.subscribe(user, fingerprint).wf(),
    {
        let t = self.subscribe(user, fingerprint);
        if self.subscriptions.contains_key(fingerprint) {
            let s = self.subscriptions[fingerprint];
            assert(s.users.insert(user).contains(user));
            assert forall|a: Seq<char>, b: Seq<char>, id: Seq<char>|
                t.binds(a, id) && t.binds(b, id) implies a == b by {
                assert(self.binds(a, id));
                assert(self.binds(b, id));
            }
        } else {
            assert forall|a: Seq<char>, b: Seq<char>, id: Seq<char>|
                t.binds(a, id) && t.binds(b, id) implies a == b by {
                assert(self.binds(a, id));
                assert(self.binds(b, id));
            }
        }
    }

    proof fn lemma_register_keeps_invariants(
        self,
        fingerprint: Seq<char>,
        upstream_id: Seq<char>,
        node_id: usize,
    )
        requires
            self.wf(),
        ensures
            self.register(fingerprint, upstream_id, node_id).wf(),
    {
        let t = self.register(fingerprint, upstream_id, node_id);
        if self.registers(fingerprint, upstream_id) {
            assert(Set::<u64>::empty().insert(self.in_flight[fingerprint]).contains(
                self.in_flight[fingerprint],
            ));
            assert forall|a: Seq<char>, b: Seq<char>, id: Seq<char>|
                t.binds(a, id) && t.binds(b, id) implies a == b by {
                if a != fingerprint {
                    assert(self.binds(a, id));
                }
                if b != fingerprint {
                    assert(self.binds(b, id));
                }
            }
        } else {
            assert forall|a: Seq<char>, b: Seq<char>, id: Seq<char>|
                t.binds(a, id) && t.binds(b, id) implies a == b by {
                assert(self.binds(a, id));
                assert(self.binds(b, id));
            }
        }
    }

    proof fn lemma_unsubscribe_keeps_invariants(self, user: u64, upstream_id: Seq<char>)
        requires
            self.wf(),
        ensures
            self.unsubscribe(user, upstream_id).wf(),
    {
        let t = self.unsubscribe(user, upstream_id);
        assert forall|a: Seq<char>, b: Seq<char>, id: Seq<char>|
            t.binds(a, id) && t.binds(b, id) implies a == b by {
            assert(self.binds(a, id));
            assert(self.binds(b, id));
        }
    }

    /// Of any number of users that ask for a subscription that is neither
    /// live nor in flight, only the first is told to subscribe upstream;
    /// every later one is told that the subscription is in flight.
    pub proof fn lemma_one_upstream_subscribe(self, users: Seq<u64>, fingerprint: Seq<char>, k: int)
        requires
            !self.subscriptions.contains_key(fingerprint),
            !self.in_flight.contains_key(fingerprint),
            0 <= k < users.len(),
        ensures
            self.after_subscribers(users.take(k), fingerprint).subscribe_result(fingerprint) == if k
                == 0 {
                Err::<Seq<char>, Error>(Error::SubscriptionMissing)
            } else {
                Err::<Seq<char>, Error>(Error::SubscriptionDedupLoss)
            },
            k > 0 ==> self.after_subscribers(users.take(k), fingerprint).in_flight[fingerprint]
                == users[0],
        decreases k,
    {
        if k > 0 {
            self.lemma_one_upstream_subscribe(users, fingerprint, k - 1);
            assert(users.take(k).drop_last() =~= users.take(k - 1));
            assert(users.take(k).last() == users[k - 1]);
        }
    }

    /// Every user that asks for a live subscription gets the same upstream
    /// id, the one it was registered with, and becomes one of its users.
    pub proof fn lemma_shared_result(self, users: Seq<u64>, fingerprint: Seq<char>, k: int)
        requires
            self.subscriptions.contains_key(fingerprint),
            0 <= k <= users.len(),
        ensures
            self.after_subscribers(users.take(k), fingerprint).subscribe_result(fingerprint)
                == Ok::<Seq<char>, Error>(self.subscriptions[fingerprint].upstream_id),
            self.after_subscribers(users.take(k), fingerprint).subscriptions.contains_key(
                fingerprint,
            ),
            forall|j: int|
                0 <= j < k ==> self.after_subscribers(
                    users.take(k),
                    fingerprint,
                ).subscriptions[fingerprint].users.contains(#[trigger] users[j]),
            self.after_subscribers(users.take(k), fingerprint).in_flight == self.in_flight,
        decreases k,
    {
        if k > 0 {
            self.lemma_shared_result(users, fingerprint, k - 1);
            assert(users.take(k).drop_last() =~= users.take(k - 1));
            assert(users.take(k).last() == users[k - 1]);
        }
    }

    /// Once the upstream subscribe of an in-flight request is registered,
    /// the subscription is live under the registered id, its first user is
    /// the one that subscribed upstream, and nothing is in flight for it.
    pub proof fn lemma_register_makes_live(
        self,
        fingerprint: Seq<char>,
        upstream_id: Seq<char>,
        node_id: usize,
    )
        requires
            self.registers(fingerprint, upstream_id),
        ensures
            self.register(fingerprint, upstream_id, node_id).subscribe_result(fingerprint) == Ok::<
                Seq<char>,
                Error,
            >(upstream_id),
            self.register(fingerprint, upstream_id, node_id).subscriptions[fingerprint].users
                == Set::<u64>::empty().insert(self.in_flight[fingerprint]),
            !self.register(fingerprint, upstream_id, node_id).in_flight.contains_key(fingerprint),
    {
    }

    /// When the last user of a subscription leaves, its record is removed
    /// and the node that owns it is named for the upstream unsubscribe.
    /// While another user remains, the record stays and nothing is cancelled.
    pub proof fn lemma_unsubscribe_tears_down(self, user: u64, fingerprint: Seq<char>)
        requires
            self.wf(),
            self.subscriptions.contains_key(fingerprint),
        ensures
            ({
                let s = self.subscriptions[fingerprint];
                let after = self.unsubscribe(user, s.upstream_id);
                if s.users == Set::<u64>::empty().insert(user) {
                    &&& self.teardown(user, s.upstream_id) == Some(s.node_id)
                    &&& !after.subscriptions.contains_key(fingerprint)
                } else {
                    &&& self.teardown(user, s.upstream_id) is None
                    &&& after.subscriptions.contains_key(fingerprint)
                    &&& after.subscriptions[fingerprint].users == s.users.remove(user)
                    &&& after.subscriptions[fingerprint].upstream_id == s.upstream_id
                }
            }),
    {
        let s = self.subscriptions[fingerprint];
        assert(self.binds(fingerprint, s.upstream_id));
        let found = choose|fp: Seq<char>| self.binds(fp, s.upstream_id);
        assert(self.binds(found, s.upstream_id));
        assert(found == fingerprint);
        if s.users == Set::<u64>::empty().insert(user) {
            assert(s.users.remove(user) =~= Set::<u64>::empty());
        } else {
            if s.users.remove(user) == Set::<u64>::empty() {
                assert(s.users =~= Set::<u64>::empty().insert(user)) by {
                    assert forall|u: u64| s.users.contains(u) implies u == user by {
                        if u != user {
                            assert(s.users.remove(user).contains(u));
                        }
                    }
                    if !s.users.contains(user) {
                        assert(s.users =~= s.users.remove(user));
                    }
                }
            }
        }
    }

    /// A notification reaches exactly the users of its subscription: a user
    /// that left no longer gets it, and one for an unknown subscription
    /// reaches nobody.
    pub proof fn lemma_audience(self, user: u64, fingerprint: Seq<char>)
        requires
            self.wf(),
            self.subscriptions.contains_key(fingerprint),
        ensures
            self.audience(self.subscriptions[fingerprint].upstream_id)
                == self.subscriptions[fingerprint].users,
            !self.unsubscribe(user, self.subscriptions[fingerprint].upstream_id).audience(
                self.subscriptions[fingerprint].upstream_id,
            ).contains(user),
    {
        let s = self.subscriptions[fingerprint];
        let id = s.upstream_id;
        assert(self.binds(fingerprint, id));
        let found = choose|fp: Seq<char>| self.binds(fp, id);
        assert(self.binds(found, id));
        let after = self.unsubscribe(user, id);
        self.lemma_unsubscribe_keeps_invariants(user, id);
        if exists|fp: Seq<char>| after.binds(fp, id) {
            let again = choose|fp: Seq<char>| after.binds(fp, id);
            assert(after.binds(again, id));
            assert(self.binds(again, id));
            assert(again == fingerprint);
        }
    }
}

/// The content of one record.
pub open spec fn subscription_of(r: SubscriptionRecord) -> Subscription {
    Subscription { upstream_id: r.upstream_id@, node_id: r.node_id, users: r.users@ }
}

/// The subscription table.
pub struct SubscriptionData {
    /// The records by request fingerprint.
    records: TextMap<SubscriptionRecord>,
    /// For each upstream id in use, the fingerprint of its record.
    owners: TextMap<String>,
    /// The fingerprints being subscribed upstream, each with its user.
    in_flight: TextMap<u64>,
}

impl View for SubscriptionData {
    type V = Table;

    closed spec fn view(&self) -> Table {
        Table {
            subscriptions: Map::new(
                |fp: Seq<char>| self.records@.contains_key(fp),
                |fp: Seq<char>| subscription_of(self.records@[fp]),
            ),
            in_flight: self.in_flight@,
        }
    }
}

impl SubscriptionData {
    /// The table is well formed: its three maps agree with each other and
    /// its content satisfies [`Table::wf`].
    pub closed spec fn wf(&self) -> bool {
        &&& self.records.wf()
        &&& self.owners.wf()
        &&& self.in_flight.wf()
        &&& forall|fp: Seq<char>| #[trigger]
            self.records@.contains_key(fp) ==> {
                let r = self.records@[fp];
                &&& r.users.wf()
                &&& r.users@ != Set::<u64>::empty()
                &&& r.request_fingerprint@ == fp
                &&& self.owners@.contains_key(r.upstream_id@)
                &&& self.owners@[r.upstream_id@]@ == fp
            }
        &&& forall|id: Seq<char>| #[trigger]
            self.owners@.contains_key(id) ==> {
                &&& self.records@.contains_key(self.owners@[id]@)
                &&& self.records@[self.owners@[id]@].upstream_id@ == id
            }
        &&& forall|fp: Seq<char>| #[trigger]
            self.in_flight@.contains_key(fp) ==> !self.records@.contains_key(fp)
    }

    /// A well-formed table has well-formed content, and finds a subscription
    /// by its upstream id through `owners`.
    proof fn lemma_content(&self)
        requires
            self.wf(),
        ensures
            self@.wf(),
            forall|id: Seq<char>| #[trigger]
                self@.fingerprint_of(id) == if self.owners@.contains_key(id) {
                    Some(self.owners@[id]@)
                } else {
                    None
                },
    {
        let t = self@;
        assert forall|a: Seq<char>, b: Seq<char>, id: Seq<char>|
            t.binds(a, id) && t.binds(b, id) implies a == b by {
            assert(self.records@.contains_key(a));
            assert(self.records@.contains_key(b));
        }
        assert forall|id: Seq<char>| #[trigger]
            t.fingerprint_of(id) == if self.owners@.contains_key(id) {
                Some(self.owners@[id]@)
            } else {
                None
            } by {
            if self.owners@.contains_key(id) {
                let fp = self.owners@[id]@;
                assert(t.binds(fp, id));
                let c = choose|fp: Seq<char>| t.binds(fp, id);
                assert(t.binds(c, id));
            } else {
                if exists|fp: Seq<char>| t.binds(fp, id) {
                    let c = choose|fp: Seq<char>| t.binds(fp, id);
                    assert(self.records@.contains_key(c));
                }
            }
        }
    }

    /// The content of a well-formed table is well formed.
    pub proof fn lemma_wf(&self)
        requires
            self.wf(),
        ensures
            self@.wf(),
    {
        self.lemma_content();
    }

    /// The table without any subscription.
    pub fn new() -> (table: SubscriptionData)
        ensures
            table.wf(),
            table@ == Table::empty(),
    {
        let table = SubscriptionData {
            records: TextMap::new(),
            owners: TextMap::new(),
            in_flight: TextMap::new(),
        };
        assert(table@.subscriptions =~= Map::empty());
        table
    }

    /// Adds `user_id` to the subscription for `request` where it is live and
    /// returns its upstream id. Otherwise tells the caller whether it has to
    /// subscribe upstream itself (and notes that it does), or whether another
    /// call is already doing so.
    pub fn subscribe_user(&mut self, user_id: u64, request: String) -> (result: Result<
        String,
        Error,
    >)
        requires
            old(self).wf(),
        ensures
            final(self).wf(),
            final(self)@ == old(self)@.subscribe(user_id, request@),
            match result {
                Ok(id) => old(self)@.subscribe_result(request@) == Ok::<Seq<char>, Error>(id@),
                Err(e) => old(self)@.subscribe_result(request@) == Err::<Seq<char>, Error>(e),
            },
    {
        let ghost before = *self;
        match self.records.remove(&request) {
            Some(record) => {
                let mut record = record;
                let id = record.upstream_id.clone();
                record.users.insert(user_id);
                assert(record.users@.contains(user_id));
                self.records.insert(request, record);
                assert(self.records@ =~= before.records@.insert(request@, record));
                assert(self@.subscriptions =~= before@.subscribe(user_id, request@).subscriptions);
                assert(self.wf()) by {
                    assert forall|id: Seq<char>| #[trigger]
                        self.owners@.contains_key(id) implies self.records@.contains_key(
                        self.owners@[id]@,
                    ) && self.records@[self.owners@[id]@].upstream_id@ == id by {
                        assert(before.records@.contains_key(before.owners@[id]@));
                    }
                }
                Ok(id)
            },
            None => {
                assert(self.records@ =~= before.records@);
                assert(self@.subscriptions =~= before@.subscriptions);
                if self.in_flight.contains_key(&request) {
                    Err(Error::SubscriptionDedupLoss)
                } else {
                    self.in_flight.insert(request, user_id);
                    Err(Error::SubscriptionMissing)
                }
            },
        }
    }

    /// Records the upstream subscription `upstream_id`, owned by the worker
    /// `node_id`, for the in-flight `request`. The user that subscribed
    /// upstream becomes its first user. Returns whether a record was made:
    /// none is where the request was not in flight or the id is in use.
    pub fn register_subscription(
        &mut self,
        request: String,
        upstream_id: String,
        node_id: usize,
    ) -> (created: bool)
        requires
            old(self).wf(),
        ensures
            final(self).wf(),
            final(self)@ == old(self)@.register(request@, upstream_id@, node_id),
            created == old(self)@.registers(request@, upstream_id@),
    {
        let ghost before = *self;
        proof {
            before.lemma_content();
        }
        let leader = self.in_flight.remove(&request);
        match leader {
            Some(user) => {
                if self.owners.contains_key(&upstream_id) {
                    assert(self@.subscriptions =~= before@.subscriptions);
                    false
                } else {
                    let mut users = UserSet::new();
                    users.insert(user);
                    assert(users@.contains(user));
                    let record = SubscriptionRecord {
                        upstream_id: upstream_id.clone(),
                        node_id,
                        request_fingerprint: request.clone(),
                        users,
                    };
                    self.owners.insert(upstream_id, request.clone());
                    self.records.insert(request, record);
                    assert(self@.subscriptions =~= before@.register(
                        request@,
                        upstream_id@,
                        node_id,
                    ).subscriptions);
                    assert(self.wf()) by {
                        assert forall|fp: Seq<char>| #[trigger]
                            self.records@.contains_key(fp) implies self.owners@.contains_key(
                            self.records@[fp].upstream_id@,
                        ) && self.owners@[self.records@[fp].upstream_id@]@ == fp by {
                            if fp != request@ {
                                assert(before.records@.contains_key(fp));
                            }
                        }
                        assert forall|id: Seq<char>| #[trigger]
                            self.owners@.contains_key(id) implies self.records@.contains_key(
                            self.owners@[id]@,
                        ) && self.records@[self.owners@[id]@].upstream_id@ == id by {
                            if id != upstream_id@ {
                                assert(before.owners@.contains_key(id));
                                assert(before.records@.contains_key(before.owners@[id]@));
                            }
                        }
                    }
                    true
                }
            },
            None => {
                assert(self.in_flight@ =~= before.in_flight@);
                assert(self@.subscriptions =~= before@.subscriptions);
                false
            },
        }
    }

    /// Forgets that `user_id` is subscribing to `request` upstream, so that
    /// another call can take over.
    pub fn abandon_subscription(&mut self, user_id: u64, request: &String)
        requires
            old(self).wf(),
        ensures
            final(self).wf(),
            final(self)@ == old(self)@.abandon(user_id, request@),
    {
        let ghost before = *self;
        let mine = match self.in_flight.get(request) {
            Some(leader) => *leader == user_id,
            None => false,
        };
        if mine {
            self.in_flight.remove(request);
        }
        assert(self@.subscriptions =~= before@.subscriptions);
    }

    /// Removes `user_id` from the subscription `upstream_id`. When that was
    /// its last user, the record is deleted and the node on which the
    /// upstream subscription has to be cancelled is returned.
    pub fn unsubscribe_user(&mut self, user_id: u64, upstream_id: String) -> (node: Option<usize>)
        requires
            old(self).wf(),
        ensures
            final(self).wf(),
            final(self)@ == old(self)@.unsubscribe(user_id, upstream_id@),
            node == old(self)@.teardown(user_id, upstream_id@),
    {
        let ghost before = *self;
        proof {
            before.lemma_content();
        }
        let fingerprint = match self.owners.get(&upstream_id) {
            Some(fp) => fp.clone(),
            None => {
                return None;
            },
        };
        assert(before@.fingerprint_of(upstream_id@) == Some(fingerprint@));
        match self.records.remove(&fingerprint) {
            Some(record) => {
                let mut record = record;
                record.users.remove(user_id);
                if record.users.is_empty() {
                    self.owners.remove(&upstream_id);
                    assert(self@.subscriptions =~= before@.unsubscribe(
                        user_id,
                        upstream_id@,
                    ).subscriptions);
                    assert(self.wf()) by {
                        assert forall|fp: Seq<char>| #[trigger]
                            self.records@.contains_key(fp) implies self.owners@.contains_key(
                            self.records@[fp].upstream_id@,
                        ) && self.owners@[self.records@[fp].upstream_id@]@ == fp by {
                            assert(before.records@.contains_key(fp));
                        }
                        assert forall|id: Seq<char>| #[trigger]
                            self.owners@.contains_key(id) implies self.records@.contains_key(
                            self.owners@[id]@,
                        ) && self.records@[self.owners@[id]@].upstream_id@ == id by {
                            assert(before.owners@.contains_key(id));
                            assert(before.records@.contains_key(before.owners@[id]@));
                        }
                    }
                    Some(record.node_id)
                } else {
                    self.records.insert(fingerprint, record);
                    assert(self.records@ =~= before.records@.insert(fingerprint@, record));
                    assert(self@.subscriptions =~= before@.unsubscribe(
                        user_id,
                        upstream_id@,
                    ).subscriptions);
                    assert(self.wf()) by {
                        assert forall|id: Seq<char>| #[trigger]
                            self.owners@.contains_key(id) implies self.records@.contains_key(
                            self.owners@[id]@,
                        ) && self.records@[self.owners@[id]@].upstream_id@ == id by {
                            assert(before.records@.contains_key(before.owners@[id]@));
                        }
                    }
                    None
                }
            },
            None => {
                assert(false);
                None
            },
        }
    }

    /// The users to which `notification` is fanned out, each once: those of
    /// the subscription that it names. A notification that names none, or
    /// one that nobody uses any more, goes to nobody.
    pub fn dispatch(&self, notification: &Value) -> (users: Vec<u64>)
        requires
            self.wf(),
        ensures
            users@.no_duplicates(),
            users@.to_set() == match notified(json_model(*notification)) {
                Some(upstream_id) => self@.audience(upstream_id),
                None => Set::<u64>::empty(),
            },
    {
        let upstream_id = match get_member(notification, "params") {
            Some(params) => match get_member(&params, "subscription") {
                Some(s) => text_of(&s),
                None => None,
            },
            None => None,
        };
        match upstream_id {
            Some(upstream_id) => self.subscribers(&upstream_id),
            None => {
                let users: Vec<u64> = Vec::new();
                assert(users@.to_set() =~= Set::<u64>::empty());
                users
            },
        }
    }

    /// The users of the subscription `upstream_id`, each once; none where
    /// no such subscription exists.
    pub fn subscribers(&self, upstream_id: &String) -> (users: Vec<u64>)
        requires
            self.wf(),
        ensures
            users@.no_duplicates(),
            users@.to_set() == self@.audience(upstream_id@),
    {
        proof {
            self.lemma_content();
        }
        match self.owners.get(upstream_id) {
            Some(fingerprint) => {
                match self.records.get(fingerprint) {
                    Some(record) => record.users.to_vec(),
                    None => {
                        assert(false);
                        Vec::new()
                    },
                }
            },
            None => {
                let users: Vec<u64> = Vec::new();
                assert(users@.to_set() =~= Set::<u64>::empty());
                users
            },
        }
    }

    /// The upstream id and node of the subscription for `request`, if live.
    pub fn lookup(&self, request: &String) -> (found: Option<(String, usize)>)
        requires
            self.wf(),
        ensures
            match found {
                Some((id, node)) => self@.subscriptions.contains_key(request@)
                    && self@.subscriptions[request@].upstream_id == id@
                    && self@.subscriptions[request@].node_id == node,
                None => !self@.subscriptions.contains_key(request@),
            },
    {
        match self.records.get(request) {
            Some(record) => Some((record.upstream_id.clone(), record.node_id)),
            None => None,
        }
    }
}

} // verus!
