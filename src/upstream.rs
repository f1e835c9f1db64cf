use vstd::prelude::*;

verus! {

/// What went wrong while answering a request from the upstream API.
#[derive(Debug)]
pub enum UpstreamError {
    /// The upstream API has no such person.
    NotFound,
    /// The upstream API could not be reached, or its body could not be read;
    /// the HTTP client's error says why.
    Transport(reqwest::Error),
    /// The upstream API answered with this unsuccessful status.
    Status(u16),
    /// The upstream body did not have the expected JSON shape.
    Parse,
}

/// A 2xx status.
pub open spec fn is_success(status: u16) -> bool {
    200 <= status && status < 300
}

/// How a person lookup goes on after the upstream reply: the transport error
/// when no reply arrived, else the reply's status.
pub open spec fn lookup_check(reply: Result<u16, reqwest::Error>) -> Result<(), UpstreamError> {
    match reply {
        Err(e) => Err(UpstreamError::Transport(e)),
        Ok(status) => if is_success(status) {
            Ok(())
        } else if status == 404 {
            Err(UpstreamError::NotFound)
        } else {
            Err(UpstreamError::Status(status))
        },
    }
}

/// How a search goes on after the upstream reply: the transport error when
/// no reply arrived, else the reply's status. A search has no "not found": any
/// unsuccessful status is a failure of the upstream API.
pub open spec fn search_check(reply: Result<u16, reqwest::Error>) -> Result<(), UpstreamError> {
    match reply {
        Err(e) => Err(UpstreamError::Transport(e)),
        Ok(status) => if is_success(status) {
            Ok(())
        } else {
            Err(UpstreamError::Status(status))
        },
    }
}

/// The outcome once the body has been read and parsed: `body` is the
/// transport error when it could not be read, else the parsed value, `None`
/// when it did not parse. A failed check stands, whatever the body.
pub open spec fn finished<T>(
    checked: Result<(), UpstreamError>,
    body: Result<Option<T>, reqwest::Error>,
) -> Result<T, UpstreamError> {
    match checked {
        Err(e) => Err(e),
        Ok(()) => match body {
            Err(e) => Err(UpstreamError::Transport(e)),
            Ok(Some(v)) => Ok(v),
            Ok(None) => Err(UpstreamError::Parse),
        },
    }
}

/// The HTTP status this service answers with for an upstream failure.
pub open spec fn error_status(e: UpstreamError) -> u16 {
    match e {
        UpstreamError::NotFound => 404,
        _ => 502,
    }
}

fn success_status(status: u16) -> (r: bool)
    ensures
        r == is_success(status),
{
    200 <= status && status < 300
}

/// Decides whether a person lookup goes on to parse the body.
pub fn check_lookup_reply(reply: Result<u16, reqwest::Error>) -> (r: Result<(), UpstreamError>)
    ensures
        r == lookup_check(reply),
{
    match reply {
        Err(e) => Err(UpstreamError::Transport(e)),
        Ok(status) => {
            if success_status(status) {
                Ok(())
            } else if status == 404 {
                Err(UpstreamError::NotFound)
            } else {
                Err(UpstreamError::Status(status))
            }
        },
    }
}

/// Decides whether a search goes on to parse the body.
pub fn check_search_reply(reply: Result<u16, reqwest::Error>) -> (r: Result<(), UpstreamError>)
    ensures
        r == search_check(reply),
{
    match reply {
        Err(e) => Err(UpstreamError::Transport(e)),
        Ok(status) => {
            if success_status(status) {
                Ok(())
            } else {
                Err(UpstreamError::Status(status))
            }
        },
    }
}

/// Combines the check of the reply with the body as it was read and parsed.
pub fn finish<T>(checked: Result<(), UpstreamError>, body: Result<Option<T>, reqwest::Error>) -> (r:
    Result<T, UpstreamError>)
    ensures
        r == finished(checked, body),
{
    match checked {
        Err(e) => Err(e),
        Ok(()) => match body {
            Err(e) => Err(UpstreamError::Transport(e)),
            Ok(Some(v)) => Ok(v),
            Ok(None) => Err(UpstreamError::Parse),
        },
    }
}

/// The HTTP status for an upstream failure: 404 for a person that does not
/// exist, 502 (bad gateway) for everything else.
pub fn status_for(e: &UpstreamError) -> (r: u16)
    ensures
        r == error_status(*e),
{
    match e {
        UpstreamError::NotFound => 404,
        _ => 502,
    }
}

/// Whatever the upstream API does (no reply, any status, an unreadable or
/// malformed body), a lookup and a search each end in a value or a typed
/// error, and a typed error is answered with 404 or 502; 404 comes exactly
/// when the upstream API answered a lookup with 404.
pub proof fn lemma_every_reply_is_answered<T>(
    reply: Result<u16, reqwest::Error>,
    body: Result<Option<T>, reqwest::Error>,
)
    ensures
        finished(lookup_check(reply), body) is Ok || error_status(
            finished(lookup_check(reply), body)->Err_0,
        ) == 404 || error_status(finished(lookup_check(reply), body)->Err_0) == 502,
        finished(search_check(reply), body) is Ok || error_status(
            finished(search_check(reply), body)->Err_0,
        ) == 502,
        (finished(lookup_check(reply), body) is Err && error_status(
            finished(lookup_check(reply), body)->Err_0,
        ) == 404) <==> reply == Ok::<u16, reqwest::Error>(404),
{
}

/// A lookup is a function of the upstream reply: two lookups against the same
/// upstream state (same reply, same body) give equal results.
pub proof fn lemma_lookup_repeatable<T>(
    reply1: Result<u16, reqwest::Error>,
    body1: Result<Option<T>, reqwest::Error>,
    reply2: Result<u16, reqwest::Error>,
    body2: Result<Option<T>, reqwest::Error>,
)
    requires
        reply1 == reply2,
        body1 == body2,
    ensures
        finished(lookup_check(reply1), body1) == finished(lookup_check(reply2), body2),
{
}

} // verus!
