//! The decisions of token retrieval.
//!
//! Serving a token alternates waiting (for the cache, the refresh lock, the
//! network) with deciding what to do next. The waiting is the caller's; the
//! deciding is [`TokenRequest::step`], a state machine that is told what
//! happened and answers with what to do.

use crate::error::Error;
use crate::time::{Timestamp, NANOS_PER_SEC};
use crate::types::Token;
use vstd::prelude::*;

verus! {

/// Seconds of remaining validity under which a token that is still good is
/// refreshed ahead of its expiry.
pub const REFRESH_AHEAD_SECS: u32 = 60;

/// How far one retrieval of a token has come.
pub enum TokenRequest {
    /// Nothing has happened yet: the cache is to be read.
    Start,
    /// The cache held this token, good but close to its expiry; an attempt
    /// to take the refresh lock without waiting is under way.
    NearExpiry(Token),
    /// The cache held no good token; the request waits for the refresh lock.
    Waiting,
    /// The request holds the refresh lock and reads the cache once more.
    Holding,
    /// The request holds the refresh lock and awaits a refresh.
    Refreshing,
    /// A refresh in the background, which holds the refresh lock on behalf of
    /// nobody and awaits its refresh.
    Background,
    /// Nothing is left to do.
    Finished,
}

/// What happened since the last decision.
pub enum Event {
    /// The cache was read at the given instant and held this.
    Peeked(Option<Token>, Timestamp),
    /// The refresh lock was tried without waiting; `true` if it was taken.
    TryLocked(bool),
    /// The refresh lock was taken, after waiting for it if need be.
    Locked,
    /// The refresh came back with this.
    Refreshed(Result<Token, Error>),
}

/// What to do next.
pub enum Action {
    /// Try to take the refresh lock, without waiting.
    TryLock,
    /// Take the refresh lock, waiting for it if need be.
    Lock,
    /// Read the cache.
    Peek,
    /// Call the credential source for a new token, and wait for it.
    Refresh,
    /// Hand the token to the caller. No lock is held.
    Serve(Token),
    /// Hand the token to the caller, and leave the refresh lock, which is
    /// held, to a refresh in the background that nobody waits for.
    ServeAndRefresh(Token),
    /// Release the refresh lock and hand this to the caller.
    Release(Result<Token, Error>),
    /// Release the refresh lock. Nobody is told how the refresh went.
    ReleaseQuietly,
}

/// Whether a token read from the cache at `now` may be handed out.
pub open spec fn usable(cached: Option<Token>, now: Timestamp) -> bool {
    cached matches Some(token) && !token@.expired_at(now@)
}

/// Whether a token is so close to its expiry at `now` that it is refreshed
/// ahead.
pub open spec fn expires_soon(token: Token, now: Timestamp) -> bool {
    token@.valid_for(now@) < REFRESH_AHEAD_SECS * NANOS_PER_SEC
}

impl TokenRequest {
    /// The decision taken in state `self` on `event`: the next state and what
    /// to do, or `None` where the event cannot follow the state.
    pub open spec fn decide(self, event: Event) -> Option<(TokenRequest, Action)> {
        match (self, event) {
            (TokenRequest::Start, Event::Peeked(cached, now)) => if usable(cached, now) {
                if expires_soon(cached->0, now) {
                    Some((TokenRequest::NearExpiry(cached->0), Action::TryLock))
                } else {
                    Some((TokenRequest::Finished, Action::Serve(cached->0)))
                }
            } else {
                Some((TokenRequest::Waiting, Action::Lock))
            },
            (TokenRequest::NearExpiry(token), Event::TryLocked(taken)) => if taken {
                Some((TokenRequest::Finished, Action::ServeAndRefresh(token)))
            } else {
                Some((TokenRequest::Finished, Action::Serve(token)))
            },
            (TokenRequest::Waiting, Event::Locked) => Some((TokenRequest::Holding, Action::Peek)),
            (TokenRequest::Holding, Event::Peeked(cached, now)) => if usable(cached, now) {
                Some((TokenRequest::Finished, Action::Release(Ok(cached->0))))
            } else {
                Some((TokenRequest::Refreshing, Action::Refresh))
            },
            (TokenRequest::Refreshing, Event::Refreshed(outcome)) => Some(
                (TokenRequest::Finished, Action::Release(outcome)),
            ),
            (TokenRequest::Background, Event::Refreshed(_)) => Some(
                (TokenRequest::Finished, Action::ReleaseQuietly),
            ),
            _ => None,
        }
    }

    /// A retrieval that has not begun. Its first event is the reading of the
    /// cache.
    pub fn new() -> (request: TokenRequest)
        ensures
            request == TokenRequest::Start,
    {
        TokenRequest::Start
    }

    /// The refresh in the background that [`Action::ServeAndRefresh`] asks
    /// for. Its only event is the outcome of the refresh.
    pub fn background() -> (request: TokenRequest)
        ensures
            request == TokenRequest::Background,
    {
        TokenRequest::Background
    }

    /// Takes the decision [`TokenRequest::decide`] describes.
    pub fn step(self, event: Event) -> (decision: Option<(TokenRequest, Action)>)
        ensures
            decision == self.decide(event),
    {
        match self {
            TokenRequest::Start => match event {
                Event::Peeked(Some(token), now) => {
                    if token.has_expired_at(now) {
                        Some((TokenRequest::Waiting, Action::Lock))
                    } else if token.expires_at().within_secs_after(&now, REFRESH_AHEAD_SECS) {
                        Some((TokenRequest::NearExpiry(token), Action::TryLock))
                    } else {
                        Some((TokenRequest::Finished, Action::Serve(token)))
                    }
                },
                Event::Peeked(None, _) => Some((TokenRequest::Waiting, Action::Lock)),
                _ => None,
            },
            TokenRequest::NearExpiry(token) => match event {
                Event::TryLocked(true) => Some(
                    (TokenRequest::Finished, Action::ServeAndRefresh(token)),
                ),
                Event::TryLocked(false) => Some((TokenRequest::Finished, Action::Serve(token))),
                _ => None,
            },
            TokenRequest::Waiting => match event {
                Event::Locked => Some((TokenRequest::Holding, Action::Peek)),
                _ => None,
            },
            TokenRequest::Holding => match event {
                Event::Peeked(Some(token), now) => {
                    if token.has_expired_at(now) {
                        Some((TokenRequest::Refreshing, Action::Refresh))
                    } else {
                        Some((TokenRequest::Finished, Action::Release(Ok(token))))
                    }
                },
                Event::Peeked(None, _) => Some((TokenRequest::Refreshing, Action::Refresh)),
                _ => None,
            },
            TokenRequest::Refreshing => match event {
                Event::Refreshed(outcome) => Some(
                    (TokenRequest::Finished, Action::Release(outcome)),
                ),
                _ => None,
            },
            TokenRequest::Background => match event {
                Event::Refreshed(_) => Some((TokenRequest::Finished, Action::ReleaseQuietly)),
                _ => None,
            },
            TokenRequest::Finished => None,
        }
    }
}

/// No token is handed out that counted as expired when it was read.
///
/// Whatever the state, the cache and the instant: a token that the decision
/// on a reading of the cache serves, releases the lock with or keeps for a try
/// at the lock is the one that the cache held, and had not expired at that
/// instant. A reading alone never starts a refresh in the background.
pub proof fn served_tokens_are_usable(request: TokenRequest, cached: Option<Token>, now: Timestamp)
    ensures
        request.decide(Event::Peeked(cached, now)) matches Some((next, action)) ==> {
            &&& action matches Action::Serve(token) ==> cached == Some(token) && usable(cached, now)
            &&& action matches Action::Release(answer) ==> answer matches Ok(token) && cached
                == Some(token) && usable(cached, now)
            &&& next matches TokenRequest::NearExpiry(token) ==> cached == Some(token) && usable(
                cached,
                now,
            )
            &&& !(action is ServeAndRefresh)
        },
{
}

/// A token with a minute or more left is served without a lock and without a
/// refresh: the decision on reading it is to hand it out, and with that the
/// retrieval is finished and decides nothing more.
pub proof fn fresh_token_ends_retrieval(token: Token, now: Timestamp, later: Event)
    requires
        token@.valid_for(now@) >= REFRESH_AHEAD_SECS * NANOS_PER_SEC,
    ensures
        TokenRequest::Start.decide(Event::Peeked(Some(token), now)) == Some(
            (TokenRequest::Finished, Action::Serve(token)),
        ),
        TokenRequest::Finished.decide(later).is_none(),
{
}

/// How a refresh went reaches the caller that waited for it as it is, token or
/// error, and the lock is released either way. How a refresh in the
/// background went reaches nobody.
pub proof fn refresh_outcome_is_handed_on(outcome: Result<Token, Error>)
    ensures
        TokenRequest::Refreshing.decide(Event::Refreshed(outcome)) == Some(
            (TokenRequest::Finished, Action::Release(outcome)),
        ),
        TokenRequest::Background.decide(Event::Refreshed(outcome)) == Some(
            (TokenRequest::Finished, Action::ReleaseQuietly),
        ),
{
}

} // verus!
