//! The choice of a credential source.
//!
//! The strategies are tried in a fixed order, and the first that can be set up
//! is kept for good. Setting one up is the caller's work; [`Discovery::step`]
//! is told how it went and answers with what to do next.

use crate::error::Error;
use vstd::prelude::*;

verus! {

/// The ways to come by credentials, in the order in which they are tried.
#[derive(Clone, Copy, Debug, PartialEq, Eq)]
pub enum Strategy {
    /// Key material in a file at a location that was given explicitly.
    KeyFile,
    /// The credentials that a developer's login left on this machine.
    UserCredentials,
    /// The platform's metadata service.
    MetadataService,
    /// A command-line tool that prints tokens.
    CommandLineTool,
}

/// How far the choice has come: which strategy is being tried, and how the
/// ones before it failed.
pub enum Discovery {
    /// The key file is being tried.
    KeyFile,
    /// The user's credentials are being tried; the key file failed.
    UserCredentials(Error),
    /// The metadata service is being tried; the first two failed.
    MetadataService(Error, Error),
    /// The command-line tool is being tried; the first three failed.
    CommandLineTool(Error, Error, Error),
    /// The choice is made, or has failed.
    Finished,
}

/// What to do next.
pub enum Verdict {
    /// Try to set up this strategy.
    Try(Strategy),
    /// Keep this strategy, which was set up: it is the credential source.
    Use(Strategy),
    /// Give up with this error: no strategy could be set up.
    Fail(Error),
}

impl Discovery {
    /// The strategy that is being tried, if the choice is still open.
    pub open spec fn pending(self) -> Option<Strategy> {
        match self {
            Discovery::KeyFile => Some(Strategy::KeyFile),
            Discovery::UserCredentials(_) => Some(Strategy::UserCredentials),
            Discovery::MetadataService(_, _) => Some(Strategy::MetadataService),
            Discovery::CommandLineTool(_, _, _) => Some(Strategy::CommandLineTool),
            Discovery::Finished => None,
        }
    }

    /// The failures so far, in the order of the strategies.
    pub open spec fn failures(self) -> Seq<Error> {
        match self {
            Discovery::KeyFile => seq![],
            Discovery::UserCredentials(first) => seq![first],
            Discovery::MetadataService(first, second) => seq![first, second],
            Discovery::CommandLineTool(first, second, third) => seq![first, second, third],
            Discovery::Finished => seq![],
        }
    }

    /// The decision taken when the pending strategy was set up (`Ok`) or
    /// failed (`Err`): the next state and what to do, or `None` once the
    /// choice is finished.
    ///
    /// A strategy that was set up is kept. One that failed makes way for the
    /// next; after the last, all four failures together are the error.
    pub open spec fn decide(self, outcome: Result<(), Error>) -> Option<(Discovery, Verdict)> {
        match (self, outcome) {
            (Discovery::Finished, _) => None,
            (_, Ok(_)) => Some((Discovery::Finished, Verdict::Use(self.pending()->0))),
            (Discovery::KeyFile, Err(first)) => Some(
                (Discovery::UserCredentials(first), Verdict::Try(Strategy::UserCredentials)),
            ),
            (Discovery::UserCredentials(first), Err(second)) => Some(
                (Discovery::MetadataService(first, second), Verdict::Try(Strategy::MetadataService)),
            ),
            (Discovery::MetadataService(first, second), Err(third)) => Some(
                (
                    Discovery::CommandLineTool(first, second, third),
                    Verdict::Try(Strategy::CommandLineTool),
                ),
            ),
            (Discovery::CommandLineTool(first, second, third), Err(fourth)) => Some(
                (
                    Discovery::Finished,
                    Verdict::Fail(
                        Error::NoAuthMethod(
                            Box::new(first),
                            Box::new(second),
                            Box::new(third),
                            Box::new(fourth),
                        ),
                    ),
                ),
            ),
        }
    }

    /// A choice that has not begun: the first strategy, the key file, is the
    /// one to try.
    pub fn new() -> (discovery: Discovery)
        ensures
            discovery == Discovery::KeyFile,
    {
        Discovery::KeyFile
    }

    /// The strategy that is being tried.
    pub fn strategy(&self) -> (pending: Option<Strategy>)
        ensures
            pending == self.pending(),
    {
        match self {
            Discovery::KeyFile => Some(Strategy::KeyFile),
            Discovery::UserCredentials(_) => Some(Strategy::UserCredentials),
            Discovery::MetadataService(_, _) => Some(Strategy::MetadataService),
            Discovery::CommandLineTool(_, _, _) => Some(Strategy::CommandLineTool),
            Discovery::Finished => None,
        }
    }

    /// Takes the decision [`Discovery::decide`] describes.
    pub fn step(self, outcome: Result<(), Error>) -> (decision: Option<(Discovery, Verdict)>)
        ensures
            decision == self.decide(outcome),
    {
        match self {
            Discovery::Finished => None,
            Discovery::KeyFile => match outcome {
                Ok(_) => Some((Discovery::Finished, Verdict::Use(Strategy::KeyFile))),
                Err(first) => Some(
                    (Discovery::UserCredentials(first), Verdict::Try(Strategy::UserCredentials)),
                ),
            },
            Discovery::UserCredentials(first) => match outcome {
                Ok(_) => Some((Discovery::Finished, Verdict::Use(Strategy::UserCredentials))),
                Err(second) => Some(
                    (
                        Discovery::MetadataService(first, second),
                        Verdict::Try(Strategy::MetadataService),
                    ),
                ),
            },
            Discovery::MetadataService(first, second) => match outcome {
                Ok(_) => Some((Discovery::Finished, Verdict::Use(Strategy::MetadataService))),
                Err(third) => Some(
                    (
                        Discovery::CommandLineTool(first, second, third),
                        Verdict::Try(Strategy::CommandLineTool),
                    ),
                ),
            },
            Discovery::CommandLineTool(first, second, third) => match outcome {
                Ok(_) => Some((Discovery::Finished, Verdict::Use(Strategy::CommandLineTool))),
                Err(fourth) => Some(
                    (
                        Discovery::Finished,
                        Verdict::Fail(
                            Error::NoAuthMethod(
                                Box::new(first),
                                Box::new(second),
                                Box::new(third),
                                Box::new(fourth),
                            ),
                        ),
                    ),
                ),
            },
        }
    }
}

/// When every strategy fails, the error holds all four failures, each in its
/// place: whatever `first`, `second`, `third` and `fourth` are, feeding them
/// to a new choice in this order ends in `NoAuthMethod` of the four.
pub proof fn exhaustion_keeps_every_failure(first: Error, second: Error, third: Error, fourth: Error)
    ensures
        ({
            let d0 = Discovery::KeyFile;
            let (d1, v1) = d0.decide(Err(first))->0;
            let (d2, v2) = d1.decide(Err(second))->0;
            let (d3, v3) = d2.decide(Err(third))->0;
            let (d4, v4) = d3.decide(Err(fourth))->0;
            &&& v1 == Verdict::Try(Strategy::UserCredentials)
            &&& v2 == Verdict::Try(Strategy::MetadataService)
            &&& v3 == Verdict::Try(Strategy::CommandLineTool)
            &&& d4 == Discovery::Finished
            &&& v4 matches Verdict::Fail(error)
            &&& error@ == crate::error::ErrorView::NoAuthMethod(
                seq![first@, second@, third@, fourth@],
            )
        }),
{
}

/// The first strategy that can be set up is kept, and none after it is tried:
/// in any state that is not finished, success of the pending strategy ends the
/// choice with that strategy, and the finished choice decides nothing more.
pub proof fn first_success_is_final(discovery: Discovery, later: Result<(), Error>)
    requires
        discovery != Discovery::Finished,
    ensures
        discovery.decide(Ok(())) == Some(
            (Discovery::Finished, Verdict::Use(discovery.pending()->0)),
        ),
        Discovery::Finished.decide(later).is_none(),
{
}

/// A strategy is tried only after all before it have failed: the failures
/// held while a strategy is pending are as many as the strategies before it,
/// and each failure adds itself at the end.
pub proof fn failures_accumulate(discovery: Discovery, failure: Error)
    requires
        discovery.decide(Err(failure)) matches Some((_, Verdict::Try(_))),
    ensures
        ({
            let (next, _) = discovery.decide(Err(failure))->0;
            next.failures() == discovery.failures().push(failure)
        }),
{
}

} // verus!
