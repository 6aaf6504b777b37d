use vstd::prelude::*;

verus! {

/// Why a run ends without showing any headline.
#[derive(Debug, PartialEq, Eq)]
pub enum FetchError {
    /// No API key was configured.
    MissingKey,
    /// The request could not be sent, or no response came back.
    Transport(String),
    /// The response came back with a status other than 200.
    Status(u16),
    /// The body of a 200 response does not hold the expected fields.
    Parse(String),
}

/// The reason phrase that the HTTP registry gives a status code, if any.
pub uninterp spec fn status_reason(code: u16) -> Option<Seq<char>>;

/// Relies on reqwest::StatusCode::from_u16 and StatusCode::canonical_reason:
/// the reason phrase for a code, from a fixed table of registered codes.
#[verifier::external_body]
fn reason_phrase(code: u16) -> (r: Option<&'static str>)
    ensures
        match r {
            Some(p) => status_reason(code) == Some(p@),
            None => status_reason(code) is None,
        },
{
    match reqwest::StatusCode::from_u16(code) {
        Ok(status) => status.canonical_reason(),
        Err(_) => None,
    }
}

/// The character of a decimal digit.
pub open spec fn digit_char(d: nat) -> char {
    if d == 0 { '0' }
    else if d == 1 { '1' }
    else if d == 2 { '2' }
    else if d == 3 { '3' }
    else if d == 4 { '4' }
    else if d == 5 { '5' }
    else if d == 6 { '6' }
    else if d == 7 { '7' }
    else if d == 8 { '8' }
    else { '9' }
}

/// The decimal digits of `n`, without leading zeros.
pub open spec fn decimal(n: nat) -> Seq<char>
    decreases n,
{
    if n < 10 {
        seq![digit_char(n)]
    } else {
        decimal(n / 10) + seq![digit_char(n % 10)]
    }
}

/// How a status code reads in a message: its number and its reason phrase.
pub open spec fn status_text(code: u16) -> Seq<char> {
    decimal(code as nat) + " "@ + match status_reason(code) {
        Some(p) => p,
        None => "<unknown status code>"@,
    }
}

/// `part` stands somewhere in `text`, its characters side by side.
pub open spec fn holds_text(text: Seq<char>, part: Seq<char>) -> bool {
    exists|i: int| 0 <= i && i + part.len() <= text.len() && #[trigger] text.subrange(i, i + part.len()) == part
}

/// What a person is told about each error.
pub open spec fn message_of(e: FetchError) -> Seq<char> {
    match e {
        FetchError::MissingKey => "NEWS_API_KEY is required."@,
        FetchError::Transport(cause) => "Failed to send request: "@ + cause@,
        FetchError::Status(code) => "Unexpected response status: "@ + status_text(code),
        FetchError::Parse(cause) => "Failed to parse JSON response: "@ + cause@,
    }
}

fn digit_str(d: u16) -> (r: &'static str)
    requires
        d < 10,
    ensures
        r@ == seq![digit_char(d as nat)],
{
    proof {
        reveal_strlit("0");
        reveal_strlit("1");
        reveal_strlit("2");
        reveal_strlit("3");
        reveal_strlit("4");
        reveal_strlit("5");
        reveal_strlit("6");
        reveal_strlit("7");
        reveal_strlit("8");
        reveal_strlit("9");
    }
    let r = if d == 0 { "0" }
    else if d == 1 { "1" }
    else if d == 2 { "2" }
    else if d == 3 { "3" }
    else if d == 4 { "4" }
    else if d == 5 { "5" }
    else if d == 6 { "6" }
    else if d == 7 { "7" }
    else if d == 8 { "8" }
    else { "9" };
    assert(r@ =~= seq![digit_char(d as nat)]);
    r
}

/// Writes `n` in decimal.
pub fn decimal_text(n: u16) -> (r: String)
    ensures
        r@ == decimal(n as nat),
    decreases n,
{
    if n < 10 {
        String::from_str(digit_str(n))
    } else {
        let mut r = decimal_text(n / 10);
        r.append(digit_str(n % 10));
        r
    }
}

impl FetchError {
    /// The message that tells a person what went wrong.
    pub fn message(&self) -> (r: String)
        ensures
            r@ == message_of(*self),
    {
        match self {
            FetchError::MissingKey => String::from_str("NEWS_API_KEY is required."),
            FetchError::Transport(cause) => {
                String::from_str("Failed to send request: ").concat(cause.as_str())
            },
            FetchError::Status(code) => {
                let mut r = String::from_str("Unexpected response status: ");
                let digits = decimal_text(*code);
                r.append(digits.as_str());
                r.append(" ");
                match reason_phrase(*code) {
                    Some(p) => r.append(p),
                    None => r.append("<unknown status code>"),
                }
                assert(r@ =~= message_of(*self));
                r
            },
            FetchError::Parse(cause) => {
                String::from_str("Failed to parse JSON response: ").concat(cause.as_str())
            },
        }
    }
}

} // verus!
