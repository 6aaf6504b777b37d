use vstd::prelude::*;
use crate::error::{decimal, holds_text, message_of, status_text, FetchError};
use crate::model::Articles;
use crate::render::{dress, red, render_top_headlines, renders, texts, Tone};

verus! {

/// Where the news service lives.
pub const NEWS_API_BASE: &'static str = "https://newsapi.org";

/// The address that asks `base` for the top headlines in the United States,
/// with `key` as the credential.
pub open spec fn top_headlines_url(base: Seq<char>, key: Seq<char>) -> Seq<char> {
    base + "/v2/top-headlines?country=us&apiKey="@ + key
}

/// What a run decides once the service has answered, or failed to.
pub open spec fn response_outcome(sent: Result<u16, String>) -> Result<(), FetchError> {
    match sent {
        Err(cause) => Err(FetchError::Transport(cause)),
        Ok(code) => if code == 200 {
            Ok(())
        } else {
            Err(FetchError::Status(code))
        },
    }
}

/// What a run keeps of a decoded body of a 200 response.
pub open spec fn payload_outcome(parsed: Result<Articles, String>) -> Result<Articles, FetchError> {
    match parsed {
        Ok(list) => Ok(list),
        Err(cause) => Err(FetchError::Parse(cause)),
    }
}

/// The line that reports `e`, with its opening word lit or not.
pub open spec fn error_report(e: FetchError, lit: bool) -> Seq<char> {
    dress("Error:"@, Tone::Alarm, lit) + " "@ + message_of(e)
}

/// A response with any status but 200 ends the run with a status error, and
/// the message of that error holds the status code in decimal.
pub proof fn lemma_status_failure_names_code(code: u16)
    requires
        code != 200,
    ensures
        response_outcome(Ok(code)) == Err::<(), FetchError>(FetchError::Status(code)),
        holds_text(message_of(FetchError::Status(code)), decimal(code as nat)),
{
    let text = message_of(FetchError::Status(code));
    let digits = decimal(code as nat);
    reveal_strlit("Unexpected response status: ");
    assert(text == "Unexpected response status: "@ + status_text(code));
    assert(text.subrange(28, 28 + digits.len() as int) =~= digits);
}

/// The address of the top headlines of `base` for `key`.
pub fn headlines_url(base: &str, key: &str) -> (r: String)
    ensures
        r@ == top_headlines_url(base@, key@),
{
    String::from_str(base).concat("/v2/top-headlines?country=us&apiKey=").concat(key)
}

/// The address to ask, where an API key is configured: none when the key is
/// missing or empty, so that nothing is sent.
pub fn request_target(base: &str, key: Option<String>) -> (r: Result<String, FetchError>)
    ensures
        r is Ok <==> (key matches Some(k) && k@.len() > 0),
        r matches Ok(url) ==> (key matches Some(k) && url@ == top_headlines_url(base@, k@)),
        r matches Err(e) ==> e is MissingKey,
{
    match key {
        Some(k) => {
            if k.as_str().is_empty() {
                Err(FetchError::MissingKey)
            } else {
                Ok(headlines_url(base, k.as_str()))
            }
        },
        None => Err(FetchError::MissingKey),
    }
}

/// Decides on what sending the request gave: the status of the response, or
/// why none came. Only a 200 lets the body be read.
pub fn check_response(sent: Result<u16, String>) -> (r: Result<(), FetchError>)
    ensures
        r == response_outcome(sent),
{
    match sent {
        Err(cause) => Err(FetchError::Transport(cause)),
        Ok(code) => if code == 200 {
            Ok(())
        } else {
            Err(FetchError::Status(code))
        },
    }
}

/// Decides on the decoded body of a 200 response: the articles, or why the
/// body does not hold them.
pub fn check_payload(parsed: Result<Articles, String>) -> (r: Result<Articles, FetchError>)
    ensures
        r == payload_outcome(parsed),
{
    match parsed {
        Ok(list) => Ok(list),
        Err(cause) => Err(FetchError::Parse(cause)),
    }
}

/// The line that reports `e` to a person.
pub fn error_line(e: &FetchError) -> (r: String)
    ensures
        exists|lit: bool| r@ == error_report(*e, lit),
{
    let word = red("Error:");
    let r = word.concat(" ").concat(e.message().as_str());
    proof {
        reveal_strlit("Error:");
        assert(!"Error:"@.contains('\x1b')) by {
            assert forall|k: int| 0 <= k < "Error:"@.len() implies "Error:"@[k] != '\x1b' by {}
        }
        let lit = choose|lit: bool| word@ == dress("Error:"@, Tone::Alarm, lit);
        assert(r@ == error_report(*e, lit));
    }
    r
}

/// What a run writes: lines for standard output and lines for standard error.
pub struct Transcript {
    pub out: Vec<String>,
    pub err: Vec<String>,
}

/// What a run writes once it has its articles or its error: the headlines and
/// no error, or one error line and no headline.
pub fn finish(outcome: Result<Articles, FetchError>) -> (t: Transcript)
    ensures
        outcome matches Ok(list) ==> t.err@.len() == 0 && renders(texts(t.out@), list@),
        outcome matches Err(e) ==> {
            &&& t.out@.len() == 0
            &&& t.err@.len() == 1
            &&& exists|lit: bool| t.err@[0]@ == error_report(e, lit)
        },
{
    match outcome {
        Ok(list) => Transcript { out: render_top_headlines(&list), err: Vec::new() },
        Err(e) => {
            let line = error_line(&e);
            let mut err: Vec<String> = Vec::new();
            err.push(line);
            Transcript { out: Vec::new(), err }
        },
    }
}

} // verus!
