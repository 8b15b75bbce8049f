//! Many retrievals at once: what the refresh lock and the decisions of
//! [`TokenRequest`] guarantee together.
//!
//! A [`World`] is a manager as its callers see it: the cache of the
//! credential source, the refresh lock, and every retrieval under way. An
//! [`Op`] is one thing that happens to one retrieval. The world moves as the
//! lock and the credential source allow and as [`TokenRequest::decide`]
//! decides. Nothing here runs: this is the model in which the guarantees are
//! stated and proved.

use crate::authentication_manager::{usable, expires_soon, Action, Event, TokenRequest};
use crate::error::Error;
use crate::time::Timestamp;
use crate::types::Token;
use vstd::prelude::*;

verus! {

/// Who holds the refresh lock.
pub enum Holder {
    /// The retrieval with this number.
    Caller(int),
    /// The refresh in the background.
    Background,
}

/// A manager and the retrievals under way.
pub struct World {
    /// What the cache of the credential source holds.
    pub cache: Option<Token>,
    /// Who holds the refresh lock, if anyone.
    pub lock: Option<Holder>,
    /// How far each retrieval has come.
    pub callers: Seq<TokenRequest>,
    /// What each retrieval has handed to its caller, once it has.
    pub answers: Seq<Option<Result<Token, Error>>>,
    /// How many refreshes are under way.
    pub in_flight: nat,
    /// How many refreshes were begun, in the foreground or in the background.
    pub refreshes: nat,
    /// How many of them were begun in the background.
    pub background: nat,
}

/// One thing that happens.
pub enum Op {
    /// The retrieval reads the cache at the instant `now`.
    Peek { caller: int, now: Timestamp },
    /// The retrieval tries the refresh lock, without waiting.
    TryLock { caller: int },
    /// The retrieval, which waited for it, gets the refresh lock.
    Lock { caller: int },
    /// The refresh that the retrieval awaits comes back.
    Refreshed { caller: int, outcome: Result<Token, Error> },
    /// The refresh in the background comes back.
    BackgroundRefreshed { outcome: Result<Token, Error> },
}

/// What the cache holds after a refresh came back: the new token, or what it
/// held before where the refresh failed.
pub open spec fn cache_after(cache: Option<Token>, outcome: Result<Token, Error>) -> Option<Token> {
    match outcome {
        Ok(token) => Some(token),
        Err(_) => cache,
    }
}

impl World {
    /// `n` retrievals that have not begun, the lock free, the cache as given.
    pub open spec fn init(n: nat, cache: Option<Token>) -> World {
        World {
            cache,
            lock: None,
            callers: Seq::new(n, |i: int| TokenRequest::Start),
            answers: Seq::new(n, |i: int| None),
            in_flight: 0,
            refreshes: 0,
            background: 0,
        }
    }

    /// Whether `caller` numbers a retrieval.
    pub open spec fn has(self, caller: int) -> bool {
        0 <= caller < self.callers.len()
    }

    /// The event that `op` brings to its retrieval, where `op` can happen.
    ///
    /// The cache is read by a retrieval that is about to, and shows what it
    /// holds. The lock is tried by a retrieval that is about to, and is taken
    /// if it is free. It is got, by a retrieval that waits for it, only while
    /// it is free. A refresh comes back to the retrieval that awaits it.
    pub open spec fn event(self, op: Op) -> Option<Event> {
        match op {
            Op::Peek { caller, now } => if self.has(caller) && (self.callers[caller]
                is Start || self.callers[caller] is Holding) {
                Some(Event::Peeked(self.cache, now))
            } else {
                None
            },
            Op::TryLock { caller } => if self.has(caller) && self.callers[caller] is NearExpiry {
                Some(Event::TryLocked(self.lock is None))
            } else {
                None
            },
            Op::Lock { caller } => if self.has(caller) && self.callers[caller] is Waiting
                && self.lock is None {
                Some(Event::Locked)
            } else {
                None
            },
            Op::Refreshed { caller, outcome } => if self.has(caller) && self.callers[caller]
                is Refreshing {
                Some(Event::Refreshed(outcome))
            } else {
                None
            },
            Op::BackgroundRefreshed { outcome } => if self.lock == Some(Holder::Background) {
                Some(Event::Refreshed(outcome))
            } else {
                None
            },
        }
    }

    /// The world once `op` has happened, before its retrieval has decided:
    /// a lock that was free is held, a refresh that came back is no longer
    /// under way and has left its token, if it brought one, in the cache.
    pub open spec fn delivered(self, op: Op) -> World {
        match op {
            Op::Peek { .. } => self,
            Op::TryLock { caller } => if self.lock is None {
                World { lock: Some(Holder::Caller(caller)), ..self }
            } else {
                self
            },
            Op::Lock { caller } => World { lock: Some(Holder::Caller(caller)), ..self },
            Op::Refreshed { caller, outcome } => World {
                cache: cache_after(self.cache, outcome),
                in_flight: (self.in_flight - 1) as nat,
                ..self
            },
            Op::BackgroundRefreshed { outcome } => World {
                cache: cache_after(self.cache, outcome),
                in_flight: (self.in_flight - 1) as nat,
                ..self
            },
        }
    }

    /// The world once the retrieval `caller` has done what it decided.
    pub open spec fn acted(self, caller: int, action: Action) -> World {
        match action {
            Action::TryLock | Action::Lock | Action::Peek => self,
            Action::Refresh => World {
                in_flight: self.in_flight + 1,
                refreshes: self.refreshes + 1,
                ..self
            },
            Action::Serve(token) => World {
                answers: self.answers.update(caller, Some(Ok(token))),
                ..self
            },
            Action::ServeAndRefresh(token) => World {
                answers: self.answers.update(caller, Some(Ok(token))),
                lock: Some(Holder::Background),
                in_flight: self.in_flight + 1,
                refreshes: self.refreshes + 1,
                background: self.background + 1,
                ..self
            },
            Action::Release(answer) => World {
                answers: self.answers.update(caller, Some(answer)),
                lock: None,
                ..self
            },
            Action::ReleaseQuietly => World { lock: None, ..self },
        }
    }

    /// The world after `op`, or `None` where `op` cannot happen.
    pub open spec fn next(self, op: Op) -> Option<World> {
        match self.event(op) {
            None => None,
            Some(event) => match op {
                Op::BackgroundRefreshed { .. } => match TokenRequest::Background.decide(event) {
                    Some((_, action)) => Some(self.delivered(op).acted(0, action)),
                    None => None,
                },
                Op::Peek { caller, .. }
                | Op::TryLock { caller }
                | Op::Lock { caller }
                | Op::Refreshed { caller, .. } => match self.callers[caller].decide(event) {
                    Some((request, action)) => Some(
                        World {
                            callers: self.callers.update(caller, request),
                            ..self.delivered(op)
                        }.acted(caller, action),
                    ),
                    None => None,
                },
            },
        }
    }

    /// The world after all of `ops`, one after the other, or `None` where one
    /// of them cannot happen in its turn.
    pub open spec fn run(self, ops: Seq<Op>) -> Option<World>
        decreases ops.len(),
    {
        if ops.len() == 0 {
            Some(self)
        } else {
            match self.run(ops.drop_last()) {
                Some(world) => world.next(ops.last()),
                None => None,
            }
        }
    }

    /// Whether retrieval `caller` holds the lock by its state.
    pub open spec fn holds_lock(self, caller: int) -> bool {
        self.callers[caller] is Holding || self.callers[caller] is Refreshing
    }

    /// Whether retrieval `caller` has answered exactly if it is finished.
    pub open spec fn answered_once(self, caller: int) -> bool {
        self.callers[caller] is Finished <==> self.answers[caller] is Some
    }

    /// What a world that began as [`World::init`] always is: a retrieval has
    /// answered exactly if it is finished; the lock is held by exactly the
    /// retrieval whose state says so, or by the refresh in the background;
    /// and a refresh is under way only for the holder.
    pub open spec fn consistent(self) -> bool {
        &&& self.answers.len() == self.callers.len()
        &&& forall|i: int| self.has(i) ==> !(#[trigger] self.callers[i] is Background)
        &&& forall|i: int| self.has(i) ==> #[trigger] self.answered_once(i)
        &&& forall|i: int|
            self.has(i) && #[trigger] self.holds_lock(i) ==> self.lock == Some(Holder::Caller(i))
        &&& self.lock matches Some(Holder::Caller(i)) ==> self.has(i) && self.holds_lock(i)
        &&& self.in_flight == match self.lock {
            Some(Holder::Background) => 1nat,
            Some(Holder::Caller(i)) => if self.callers[i] is Refreshing {
                1nat
            } else {
                0nat
            },
            None => 0nat,
        }
    }
}

/// The retrieval that `op` happens to, where it is one.
pub open spec fn subject(op: Op) -> Option<int> {
    match op {
        Op::Peek { caller, .. } => Some(caller),
        Op::TryLock { caller } => Some(caller),
        Op::Lock { caller } => Some(caller),
        Op::Refreshed { caller, .. } => Some(caller),
        Op::BackgroundRefreshed { .. } => None,
    }
}

/// One step keeps a consistent world consistent.
proof fn next_keeps_consistent(world: World, op: Op)
    requires
        world.consistent(),
        world.next(op) is Some,
    ensures
        world.next(op)->0.consistent(),
{
    let after = world.next(op)->0;
    if let Some(caller) = subject(op) {
        assert(world.holds_lock(caller) ==> world.lock == Some(Holder::Caller(caller)));
        assert forall|i: int| after.has(i) && #[trigger] after.holds_lock(i) implies after.lock
            == Some(Holder::Caller(i)) by {
            if i != caller {
                assert(world.holds_lock(i));
            }
        }
    } else {
        assert forall|i: int| after.has(i) && #[trigger] after.holds_lock(i) implies after.lock
            == Some(Holder::Caller(i)) by {
            assert(world.holds_lock(i));
        }
    }
    assert forall|i: int| after.has(i) implies #[trigger] after.answered_once(i) by {
        assert(world.answered_once(i));
    }
}

/// Every run keeps a consistent world consistent.
proof fn run_keeps_consistent(world: World, ops: Seq<Op>)
    requires
        world.consistent(),
        world.run(ops) is Some,
    ensures
        world.run(ops)->0.consistent(),
    decreases ops.len(),
{
    if ops.len() > 0 {
        run_keeps_consistent(world, ops.drop_last());
        next_keeps_consistent(world.run(ops.drop_last())->0, ops.last());
    }
}

/// At most one refresh is under way at any instant: whatever the cache held
/// at first, however many retrievals there are and in whatever order things
/// happen to them, the world after them has at most one refresh in flight,
/// and it is the holder of the refresh lock that awaits it. And every
/// retrieval answers once, when it is finished.
pub proof fn single_flight(n: nat, cache: Option<Token>, ops: Seq<Op>)
    requires
        World::init(n, cache).run(ops) is Some,
    ensures
        World::init(n, cache).run(ops)->0.in_flight <= 1,
        World::init(n, cache).run(ops)->0.consistent(),
{
    run_keeps_consistent(World::init(n, cache), ops);
}

/// Whether `op` can happen in `world`.
pub open spec fn can_happen(world: World, op: Op) -> bool {
    world.next(op) is Some
}

/// Nothing gets stuck: in a world that began as [`World::init`], as long as a
/// retrieval is not finished, something can happen. The retrieval itself can
/// go on, or it waits for the lock, and then the holder of the lock can.
pub proof fn something_can_happen(n: nat, cache: Option<Token>, ops: Seq<Op>, caller: int)
    requires
        World::init(n, cache).run(ops) matches Some(world) && world.has(caller)
            && !(world.callers[caller] is Finished),
    ensures
        exists|op: Op| can_happen(World::init(n, cache).run(ops)->0, op),
{
    let world = World::init(n, cache).run(ops)->0;
    run_keeps_consistent(World::init(n, cache), ops);
    let now: Timestamp = arbitrary();
    let outcome = Err::<Token, Error>(Error::ParsingError);
    match world.callers[caller] {
        TokenRequest::Start | TokenRequest::Holding => {
            assert(can_happen(world, Op::Peek { caller, now }));
        },
        TokenRequest::NearExpiry(_) => {
            assert(can_happen(world, Op::TryLock { caller }));
        },
        TokenRequest::Refreshing => {
            assert(can_happen(world, Op::Refreshed { caller, outcome }));
        },
        _ => {
            match world.lock {
                None => {
                    assert(can_happen(world, Op::Lock { caller }));
                },
                Some(Holder::Background) => {
                    assert(can_happen(world, Op::BackgroundRefreshed { outcome }));
                },
                Some(Holder::Caller(holder)) => {
                    if world.callers[holder] is Holding {
                        assert(can_happen(world, Op::Peek { caller: holder, now }));
                    } else {
                        assert(can_happen(world, Op::Refreshed { caller: holder, outcome }));
                    }
                },
            }
        },
    }
}

/// A token with a minute or more left is served at once: the retrieval that
/// finds it in the cache is finished by reading it, with that token as its
/// answer, and leaves the lock, the cache and the count of refreshes as they
/// were. No lock is touched and no refresh begun.
pub proof fn fresh_token_is_served_at_once(world: World, caller: int, now: Timestamp)
    requires
        world.has(caller),
        world.answers.len() == world.callers.len(),
        world.callers[caller] is Start,
        usable(world.cache, now),
        !expires_soon(world.cache->0, now),
    ensures
        world.next(Op::Peek { caller, now }) matches Some(after) && after == (World {
            callers: world.callers.update(caller, TokenRequest::Finished),
            answers: world.answers.update(caller, Some(Ok(world.cache->0))),
            ..world
        }),
{
}

/// What may happen while a cached token is good but close to its expiry, and
/// the refresh that was begun for it has not come back: retrievals read the
/// cache, at instants at which `token` may be handed out and expires soon,
/// and try the lock.
pub open spec fn near_expiry_op(token: Token, op: Op) -> bool {
    match op {
        Op::Peek { now, .. } => usable(Some(token), now) && expires_soon(token, now),
        Op::TryLock { .. } => true,
        _ => false,
    }
}

/// How one retrieval stands while the cached `token` is close to its expiry:
/// it has not begun, or it holds `token` and is about to try the lock, or it
/// has answered with `token`; it never waits.
pub open spec fn served_without_waiting(world: World, token: Token, caller: int) -> bool {
    match world.callers[caller] {
        TokenRequest::Start => world.answers[caller] is None,
        TokenRequest::NearExpiry(held) => held == token && world.answers[caller] is None,
        TokenRequest::Finished => world.answers[caller] == Some(
            Ok::<Token, Error>(token),
        ) && world.background == 1,
        _ => false,
    }
}

/// What holds of a world in which a cached token is close to its expiry.
spec fn near_expiry(world: World, token: Token) -> bool {
    &&& world.consistent()
    &&& world.cache == Some(token)
    &&& world.refreshes == world.background
    &&& world.lock is None && world.background == 0 || world.lock == Some(Holder::Background)
        && world.background == 1
    &&& forall|i: int| world.has(i) ==> #[trigger] served_without_waiting(world, token, i)
}

proof fn next_keeps_near_expiry(world: World, token: Token, op: Op)
    requires
        near_expiry(world, token),
        near_expiry_op(token, op),
        world.next(op) is Some,
    ensures
        near_expiry(world.next(op)->0, token),
{
    let after = world.next(op)->0;
    next_keeps_consistent(world, op);
    assert forall|i: int| after.has(i) implies #[trigger] served_without_waiting(
        after,
        token,
        i,
    ) by {
        assert(served_without_waiting(world, token, i));
    }
}

proof fn run_keeps_near_expiry(world: World, token: Token, ops: Seq<Op>)
    requires
        near_expiry(world, token),
        forall|k: int| 0 <= k < ops.len() ==> near_expiry_op(token, #[trigger] ops[k]),
        world.run(ops) is Some,
    ensures
        near_expiry(world.run(ops)->0, token),
    decreases ops.len(),
{
    if ops.len() > 0 {
        let before = ops.drop_last();
        run_keeps_near_expiry(world, token, before);
        next_keeps_near_expiry(world.run(before)->0, token, ops.last());
    }
}

/// While a cached token is good but has less than a minute left, any number
/// of retrievals start one refresh between them.
///
/// Let `n` retrievals begin with `token` in the cache and the lock free, and
/// let them read the cache and try the lock in any order, at instants at
/// which `token` may be handed out and expires soon, while the refresh that
/// is begun has not come back. Then at most one refresh was begun, and it runs
/// in the background. No retrieval waits for the lock or for a refresh: each
/// has either not got to its answer yet or has answered with `token`. And
/// once any retrieval has answered, exactly one refresh was begun.
pub proof fn near_expiry_starts_one_refresh(n: nat, token: Token, ops: Seq<Op>)
    requires
        forall|k: int| 0 <= k < ops.len() ==> near_expiry_op(token, #[trigger] ops[k]),
        World::init(n, Some(token)).run(ops) is Some,
    ensures
        ({
            let world = World::init(n, Some(token)).run(ops)->0;
            &&& world.background <= 1
            &&& world.refreshes == world.background
            &&& world.in_flight == world.background
            &&& forall|i: int| world.has(i) ==> #[trigger] served_without_waiting(world, token, i)
        }),
{
    let first = World::init(n, Some(token));
    assert forall|i: int| first.has(i) implies #[trigger] served_without_waiting(
        first,
        token,
        i,
    ) by {}
    run_keeps_near_expiry(first, token, ops);
}

/// What may happen while no good token is cached and the refresh brings
/// `fresh`: retrievals read the cache, at instants at which `stale`, what the
/// cache held at first, may not be handed out and `fresh` may; they get the
/// lock; and a refresh comes back with `fresh`.
pub open spec fn cold_cache_op(stale: Option<Token>, fresh: Token, op: Op) -> bool {
    match op {
        Op::Peek { now, .. } => !usable(stale, now) && usable(Some(fresh), now),
        Op::Lock { .. } => true,
        Op::Refreshed { outcome, .. } => outcome == Ok::<Token, Error>(fresh),
        _ => false,
    }
}

/// How one retrieval stands while no refresh has come back: it has no answer
/// yet.
spec fn before_refresh(world: World, caller: int) -> bool {
    &&& world.answers[caller] is None
    &&& world.callers[caller] is Start || world.callers[caller] is Waiting
        || world.callers[caller] is Holding || world.callers[caller] is Refreshing
}

/// How one retrieval stands once the refresh has brought `fresh`: its answer,
/// if it has one, is `fresh`, and it awaits no refresh of its own.
spec fn after_refresh(world: World, fresh: Token, caller: int) -> bool {
    match world.callers[caller] {
        TokenRequest::Start | TokenRequest::Waiting | TokenRequest::Holding => world.answers[caller]
            is None,
        TokenRequest::NearExpiry(held) => held == fresh && world.answers[caller] is None,
        TokenRequest::Finished => world.answers[caller] == Some(Ok::<Token, Error>(fresh)),
        _ => false,
    }
}

/// What holds of a world that began without a good token in its cache.
spec fn cold_cache(world: World, stale: Option<Token>, fresh: Token) -> bool {
    &&& world.consistent()
    &&& world.background == 0
    &&& !(world.lock == Some(Holder::Background))
    &&& {
        ||| {
            &&& world.cache == stale
            &&& world.refreshes == world.in_flight
            &&& forall|i: int| world.has(i) ==> #[trigger] before_refresh(world, i)
        }
        ||| {
            &&& world.cache == Some(fresh)
            &&& world.refreshes == 1
            &&& world.in_flight == 0
            &&& forall|i: int| world.has(i) ==> #[trigger] after_refresh(world, fresh, i)
        }
    }
}

proof fn next_keeps_cold_cache(world: World, stale: Option<Token>, fresh: Token, op: Op)
    requires
        cold_cache(world, stale, fresh),
        cold_cache_op(stale, fresh, op),
        world.next(op) is Some,
    ensures
        cold_cache(world.next(op)->0, stale, fresh),
{
    let after = world.next(op)->0;
    next_keeps_consistent(world, op);
    let caller = subject(op)->0;
    assert(world.holds_lock(caller) ==> world.lock == Some(Holder::Caller(caller)));
    if world.refreshes == 1 && world.in_flight == 0 && world.cache == Some(fresh) && (forall|
        i: int,
    |
        world.has(i) ==> #[trigger] after_refresh(world, fresh, i)) {
        assert forall|i: int| after.has(i) implies #[trigger] after_refresh(after, fresh, i) by {
            assert(after_refresh(world, fresh, i));
        }
    } else {
        if op is Refreshed {
            assert forall|i: int| after.has(i) implies #[trigger] after_refresh(
                after,
                fresh,
                i,
            ) by {
                assert(before_refresh(world, i));
                if i != caller {
                    assert(world.holds_lock(i) ==> world.lock == Some(Holder::Caller(i)));
                }
            }
        } else {
            assert forall|i: int| after.has(i) implies #[trigger] before_refresh(after, i) by {
                assert(before_refresh(world, i));
            }
        }
    }
}

proof fn run_keeps_cold_cache(world: World, stale: Option<Token>, fresh: Token, ops: Seq<Op>)
    requires
        cold_cache(world, stale, fresh),
        forall|k: int| 0 <= k < ops.len() ==> cold_cache_op(stale, fresh, #[trigger] ops[k]),
        world.run(ops) is Some,
    ensures
        cold_cache(world.run(ops)->0, stale, fresh),
    decreases ops.len(),
{
    if ops.len() > 0 {
        let before = ops.drop_last();
        run_keeps_cold_cache(world, stale, fresh, before);
        next_keeps_cold_cache(world.run(before)->0, stale, fresh, ops.last());
    }
}

/// While no good token is cached, any number of retrievals share one
/// refresh.
///
/// Let `n` retrievals begin with the lock free and `stale` in the cache, and
/// let them read the cache and get the lock in any order, at instants at
/// which `stale` may not be handed out and `fresh` may, while every refresh
/// that comes back brings `fresh`. Then at most one refresh was begun, none of
/// them in the background; every retrieval that has answered has answered
/// with `fresh`, never with what the cache held before; and once any has
/// answered, exactly one refresh was begun.
pub proof fn cold_cache_refreshes_once(n: nat, stale: Option<Token>, fresh: Token, ops: Seq<Op>)
    requires
        forall|k: int| 0 <= k < ops.len() ==> cold_cache_op(stale, fresh, #[trigger] ops[k]),
        World::init(n, stale).run(ops) is Some,
    ensures
        ({
            let world = World::init(n, stale).run(ops)->0;
            &&& world.refreshes <= 1
            &&& world.background == 0
            &&& forall|i: int|
                world.has(i) && #[trigger] world.callers[i] is Finished ==> world.answers[i]
                    == Some(Ok::<Token, Error>(fresh)) && world.refreshes == 1
            &&& forall|i: int|
                world.has(i) && !(#[trigger] world.callers[i] is Finished) ==> world.answers[i]
                    is None
        }),
{
    let first = World::init(n, stale);
    assert forall|i: int| first.has(i) implies #[trigger] before_refresh(first, i) by {}
    run_keeps_cold_cache(first, stale, fresh, ops);
    let world = first.run(ops)->0;
    assert forall|i: int| world.has(i) implies (#[trigger] world.callers[i] is Finished
        ==> world.answers[i] == Some(Ok::<Token, Error>(fresh)) && world.refreshes == 1) && (
    !(world.callers[i] is Finished) ==> world.answers[i] is None) by {
        if world.refreshes == 1 && world.in_flight == 0 && world.cache == Some(fresh) && (forall|
            j: int,
        |
            world.has(j) ==> #[trigger] after_refresh(world, fresh, j)) {
            assert(after_refresh(world, fresh, i));
        } else {
            assert(before_refresh(world, i));
        }
    }
}

} // verus!
