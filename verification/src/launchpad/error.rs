//! What can go wrong between the board and its controller.

use vstd::prelude::*;
use vstd::string::StringExecFns;

verus! {

/// An error of the controller or of the naming of its buttons.
#[derive(Debug, PartialEq, Eq)]
pub enum Error {
    /// The transport to the controller failed; the text is the transport's
    /// own description of the failure.
    ConnectionError(String),
    /// No button has this name.
    UnknownButtonError(String),
    /// No button has this position.
    IllegalButtonIdError(usize),
}

/// The character for a digit.
pub open spec fn digit_char(digit: nat) -> char {
    ('0' as int + digit) as char
}

/// The decimal numeral of a number, without leading zeros.
pub open spec fn numeral(n: nat) -> Seq<char>
    decreases n,
{
    if n < 10 {
        seq![digit_char(n)]
    } else {
        numeral(n / 10).push(digit_char(n % 10))
    }
}

/// The text of an error.
pub open spec fn description(error: Error) -> Seq<char> {
    match error {
        Error::ConnectionError(text) => text@,
        Error::UnknownButtonError(name) => "unknown button with name "@ + name@,
        Error::IllegalButtonIdError(id) => "given button code "@ + numeral(id as nat)
            + " is invalid."@,
    }
}

fn digit_str(digit: usize) -> (text: &'static str)
    requires
        digit < 10,
    ensures
        text@ == seq![digit_char(digit as nat)],
{
    proof {
        reveal_strlit("0");
        reveal_strlit("1");
        reveal_strlit("2");
        reveal_strlit("3");
        reveal_strlit("4");
        reveal_strlit("5");
        reveal_strlit("6");
        reveal_strlit("7");
        reveal_strlit("8");
        reveal_strlit("9");
    }
    match digit {
        0 => "0",
        1 => "1",
        2 => "2",
        3 => "3",
        4 => "4",
        5 => "5",
        6 => "6",
        7 => "7",
        8 => "8",
        _ => "9",
    }
}

fn decimal(n: usize) -> (text: String)
    ensures
        text@ == numeral(n as nat),
    decreases n,
{
    let last = digit_str(n % 10);
    if n < 10 {
        String::from_str(last)
    } else {
        let mut text = decimal(n / 10);
        text.append(last);
        text
    }
}

impl Clone for Error {
    fn clone(&self) -> (copy: Self)
        ensures
            copy == *self,
    {
        match self {
            Error::ConnectionError(text) => Error::ConnectionError(text.clone()),
            Error::UnknownButtonError(name) => Error::UnknownButtonError(name.clone()),
            Error::IllegalButtonIdError(id) => Error::IllegalButtonIdError(*id),
        }
    }
}

impl Error {
    /// The text of the error, for a person to read.
    pub fn to_string(&self) -> (text: String)
        ensures
            text@ == description(*self),
    {
        match self {
            Error::ConnectionError(text) => text.clone(),
            Error::UnknownButtonError(name) => {
                String::from_str("unknown button with name ").concat(name.as_str())
            },
            Error::IllegalButtonIdError(id) => {
                let mut text = String::from_str("given button code ");
                let number = decimal(*id);
                text.append(number.as_str());
                text.append(" is invalid.");
                text
            },
        }
    }
}

} // verus!
