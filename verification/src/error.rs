//! The failures a caller can meet while talking to a device.

use vstd::prelude::*;
use vstd::string::StringExecFns;

verus! {

/// A rejection that the device itself reported.
#[derive(Debug, Clone, PartialEq, Eq)]
pub struct BraviaErrorCode {
    /// The numeric error code returned by the device.
    pub code: usize,
    /// The error message returned by the device.
    pub message: String,
}

/// The character that stands for a digit.
pub open spec fn digit(d: nat) -> char {
    if d == 0 {
        '0'
    } else if d == 1 {
        '1'
    } else if d == 2 {
        '2'
    } else if d == 3 {
        '3'
    } else if d == 4 {
        '4'
    } else if d == 5 {
        '5'
    } else if d == 6 {
        '6'
    } else if d == 7 {
        '7'
    } else if d == 8 {
        '8'
    } else {
        '9'
    }
}

/// The decimal digits of a number, without leading zeros.
pub open spec fn decimal(n: nat) -> Seq<char>
    decreases n,
{
    if n < 10 {
        seq![digit(n)]
    } else {
        decimal(n / 10).push(digit(n % 10))
    }
}

/// The text form of a rejection: `#`, the code in decimal, `: ` and the
/// message.
pub open spec fn rejection_text(code: usize, message: Seq<char>) -> Seq<char> {
    seq!['#'] + decimal(code as nat) + seq![':', ' '] + message
}

fn digit_text(d: usize) -> (r: &'static str)
    requires
        d < 10,
    ensures
        r@ == seq![digit(d as nat)],
{
    proof {
        reveal_strlit("0");
        reveal_strlit("1");
        reveal_strlit("2");
        reveal_strlit("3");
        reveal_strlit("4");
        reveal_strlit("5");
        reveal_strlit("6");
        reveal_strlit("7");
        reveal_strlit("8");
        reveal_strlit("9");
    }
    let r = if d == 0 {
        "0"
    } else if d == 1 {
        "1"
    } else if d == 2 {
        "2"
    } else if d == 3 {
        "3"
    } else if d == 4 {
        "4"
    } else if d == 5 {
        "5"
    } else if d == 6 {
        "6"
    } else if d == 7 {
        "7"
    } else if d == 8 {
        "8"
    } else {
        "9"
    };
    assert(r@ =~= seq![digit(d as nat)]);
    r
}

/// Writes a number in decimal.
pub fn decimal_text(n: usize) -> (r: String)
    ensures
        r@ == decimal(n as nat),
    decreases n,
{
    if n < 10 {
        digit_text(n).to_owned()
    } else {
        let mut s = decimal_text(n / 10);
        s.append(digit_text(n % 10));
        assert(s@ =~= decimal(n as nat));
        s
    }
}

impl BraviaErrorCode {
    /// The rejection as a text, such as `#40005: Display Is Turned off`.
    pub fn to_text(&self) -> (s: String)
        ensures
            s@ == rejection_text(self.code, self.message@),
    {
        proof {
            reveal_strlit("#");
            reveal_strlit(": ");
        }
        let mut s = "#".to_owned();
        s.append(decimal_text(self.code).as_str());
        s.append(": ");
        s.append(self.message.as_str());
        assert(s@ =~= rejection_text(self.code, self.message@));
        s
    }
}

/// Everything that can go wrong with a call. Every failure is handed to the
/// caller; nothing is retried or recovered from.
#[derive(Debug, Clone, PartialEq, Eq)]
pub enum Error {
    /// A request was built without a required field; the field's name.
    FieldInitialization(String),
    /// The exchange with the device failed; the cause.
    NetworkError(String),
    /// The device answered with a status outside the success range.
    BadStatus(u16),
    /// The reply lacks a value that the call needs; which one.
    MissingValue(String),
    /// The reply holds neither `result` nor `error`.
    InvalidResponse(String),
    /// A JSON value does not have the shape the call expects.
    DeserializeError(String),
    /// The device reported an error of its own.
    BraviaError(BraviaErrorCode),
    /// The device does not have the requested service.
    BraviaApiServiceNotFound,
    /// The service does not have the requested API.
    BraviaApiNotFound,
    /// The API is not offered at the requested version.
    BraviaApiLevelError,
    /// The API needs a password and none is stored.
    BraviaAuthLevelError,
}

/// The mathematical value of an [`Error`].
pub enum ErrorView {
    FieldInitialization(Seq<char>),
    NetworkError(Seq<char>),
    BadStatus(u16),
    MissingValue(Seq<char>),
    InvalidResponse(Seq<char>),
    DeserializeError(Seq<char>),
    BraviaError(usize, Seq<char>),
    BraviaApiServiceNotFound,
    BraviaApiNotFound,
    BraviaApiLevelError,
    BraviaAuthLevelError,
}

impl View for Error {
    type V = ErrorView;

    open spec fn view(&self) -> ErrorView {
        match self {
            Error::FieldInitialization(s) => ErrorView::FieldInitialization(s@),
            Error::NetworkError(s) => ErrorView::NetworkError(s@),
            Error::BadStatus(c) => ErrorView::BadStatus(*c),
            Error::MissingValue(s) => ErrorView::MissingValue(s@),
            Error::InvalidResponse(s) => ErrorView::InvalidResponse(s@),
            Error::DeserializeError(s) => ErrorView::DeserializeError(s@),
            Error::BraviaError(e) => ErrorView::BraviaError(e.code, e.message@),
            Error::BraviaApiServiceNotFound => ErrorView::BraviaApiServiceNotFound,
            Error::BraviaApiNotFound => ErrorView::BraviaApiNotFound,
            Error::BraviaApiLevelError => ErrorView::BraviaApiLevelError,
            Error::BraviaAuthLevelError => ErrorView::BraviaAuthLevelError,
        }
    }
}

/// The mathematical value of an outcome whose success carries a value with a
/// view.
pub open spec fn result_view<T: View>(r: Result<T, Error>) -> Result<T::V, ErrorView> {
    match r {
        Ok(t) => Ok(t@),
        Err(e) => Err(e@),
    }
}

} // verus!
