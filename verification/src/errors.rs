//! The error taxonomy of the two toggle operations, and the human-readable
//! message of each error.

use vstd::prelude::*;
use vstd::string::StringExecFns;

verus! {

/// Why a toggle operation failed.
#[derive(Clone, Copy, Debug, PartialEq, Eq, Structural)]
pub enum ToggleError {
    /// A GET or PATCH returned a status other than 200; carries that status.
    RemoteStatus(u16),
    /// A response body did not parse as JSON, or lacked an expected field,
    /// or held it with the wrong type.
    MalformedResponse,
    /// The connections list holds no record for the requested provider.
    ConnectionNotFound,
}

/// The decimal digit `d` as a one-character string.
pub open spec fn spec_digit(d: nat) -> Seq<char> {
    if d == 0 {
        "0"@
    } else if d == 1 {
        "1"@
    } else if d == 2 {
        "2"@
    } else if d == 3 {
        "3"@
    } else if d == 4 {
        "4"@
    } else if d == 5 {
        "5"@
    } else if d == 6 {
        "6"@
    } else if d == 7 {
        "7"@
    } else if d == 8 {
        "8"@
    } else {
        "9"@
    }
}

/// The usual decimal rendering of `n`, most significant digit first.
pub open spec fn spec_decimal(n: nat) -> Seq<char>
    decreases n,
{
    if n < 10 {
        spec_digit(n)
    } else {
        spec_decimal(n / 10) + spec_digit(n % 10)
    }
}

fn digit_string(d: u16) -> (r: String)
    requires
        d < 10,
    ensures
        r@ == spec_digit(d as nat),
{
    match d {
        0 => "0".to_owned(),
        1 => "1".to_owned(),
        2 => "2".to_owned(),
        3 => "3".to_owned(),
        4 => "4".to_owned(),
        5 => "5".to_owned(),
        6 => "6".to_owned(),
        7 => "7".to_owned(),
        8 => "8".to_owned(),
        _ => "9".to_owned(),
    }
}

/// Renders a status code in decimal, for the error message.
pub fn decimal_string(n: u16) -> (r: String)
    ensures
        r@ == spec_decimal(n as nat),
    decreases n,
{
    if n < 10 {
        digit_string(n)
    } else {
        let high = decimal_string(n / 10);
        let low = digit_string(n % 10);
        high.concat(low.as_str())
    }
}

/// The message that each error is reported with.
pub open spec fn spec_message(e: ToggleError) -> Seq<char> {
    match e {
        ToggleError::RemoteStatus(code) => "Bad status code: "@ + spec_decimal(code as nat),
        ToggleError::MalformedResponse => "Malformed response body"@,
        ToggleError::ConnectionNotFound => "Account is not connected to Spotify"@,
    }
}

impl ToggleError {
    /// The human-readable line that describes this error.
    pub fn message(&self) -> (r: String)
        ensures
            r@ == spec_message(*self),
    {
        match self {
            ToggleError::RemoteStatus(code) => {
                let prefix = "Bad status code: ".to_owned();
                let digits = decimal_string(*code);
                prefix.concat(digits.as_str())
            },
            ToggleError::MalformedResponse => "Malformed response body".to_owned(),
            ToggleError::ConnectionNotFound => "Account is not connected to Spotify".to_owned(),
        }
    }
}

} // verus!
