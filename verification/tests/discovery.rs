use gcp_auth::discovery::{Discovery, Strategy, Verdict};
use gcp_auth::error::Error;

fn failure(text: &str) -> Error {
    Error::Strategy(String::from(text))
}

fn step(discovery: Discovery, outcome: Result<(), Error>) -> (Discovery, Verdict) {
    match discovery.step(outcome) {
        Some(decision) => decision,
        None => panic!("the choice was finished"),
    }
}

/// Feeds the failures to a new choice, one after the other.
fn after_failures(failures: &[&str]) -> Discovery {
    let mut discovery = Discovery::new();
    for text in failures {
        discovery = step(discovery, Err(failure(text))).0;
    }
    discovery
}

#[test]
fn key_file_is_tried_first() {
    assert_eq!(Discovery::new().strategy(), Some(Strategy::KeyFile));
}

#[test]
fn strategies_are_tried_in_order() {
    let (state, verdict) = step(Discovery::new(), Err(failure("no key file")));
    assert!(matches!(verdict, Verdict::Try(Strategy::UserCredentials)));
    assert_eq!(state.strategy(), Some(Strategy::UserCredentials));
    let (state, verdict) = step(state, Err(failure("no user credentials")));
    assert!(matches!(verdict, Verdict::Try(Strategy::MetadataService)));
    assert_eq!(state.strategy(), Some(Strategy::MetadataService));
    let (state, verdict) = step(state, Err(failure("no metadata service")));
    assert!(matches!(verdict, Verdict::Try(Strategy::CommandLineTool)));
    assert_eq!(state.strategy(), Some(Strategy::CommandLineTool));
}

#[test]
fn first_success_is_kept() {
    let expected = [
        Strategy::KeyFile,
        Strategy::UserCredentials,
        Strategy::MetadataService,
        Strategy::CommandLineTool,
    ];
    let failures = ["first", "second", "third"];
    for (count, strategy) in expected.iter().enumerate() {
        let (state, verdict) = step(after_failures(&failures[..count]), Ok(()));
        match verdict {
            Verdict::Use(kept) => assert_eq!(kept, *strategy),
            _ => panic!("the strategy that was set up was not kept"),
        }
        assert_eq!(state.strategy(), None);
        assert!(state.step(Ok(())).is_none());
    }
}

#[test]
fn exhaustion_holds_every_failure() {
    let state = after_failures(&["no key file", "no user credentials", "no metadata service"]);
    let (state, verdict) = step(state, Err(failure("no command-line tool")));
    match verdict {
        Verdict::Fail(error) => assert_eq!(
            error,
            Error::NoAuthMethod(
                Box::new(failure("no key file")),
                Box::new(failure("no user credentials")),
                Box::new(failure("no metadata service")),
                Box::new(failure("no command-line tool")),
            )
        ),
        _ => panic!("the choice did not fail"),
    }
    assert_eq!(state.strategy(), None);
}

#[test]
fn exhaustion_holds_failures_of_every_kind() {
    let state = step(Discovery::new(), Err(Error::SignerInit)).0;
    let state = step(state, Err(Error::ParsingError)).0;
    let state = step(state, Err(Error::ConnectionError(String::from("unreachable")))).0;
    let inner = Error::NoAuthMethod(
        Box::new(Error::SignerFailed),
        Box::new(Error::SignerFailed),
        Box::new(Error::SignerFailed),
        Box::new(Error::SignerFailed),
    );
    match step(state, Err(inner)).1 {
        Verdict::Fail(Error::NoAuthMethod(first, second, third, fourth)) => {
            assert_eq!(*first, Error::SignerInit);
            assert_eq!(*second, Error::ParsingError);
            assert_eq!(*third, Error::ConnectionError(String::from("unreachable")));
            assert!(matches!(*fourth, Error::NoAuthMethod(..)));
        }
        _ => panic!("the choice did not fail with all four failures"),
    }
}

#[test]
fn finished_choice_decides_nothing() {
    assert!(Discovery::Finished.step(Ok(())).is_none());
    assert!(Discovery::Finished.step(Err(failure("late"))).is_none());
    assert_eq!(Discovery::Finished.strategy(), None);
    let (state, _) = step(after_failures(&["a", "b", "c"]), Err(failure("d")));
    assert!(state.step(Err(failure("e"))).is_none());
}
