//! The ways in which an operation fails, and the messages that describe
//! them.

use vstd::prelude::*;
use vstd::string::*;

verus! {

/// What the engine said about a call that failed, copied at the moment of
/// the failure. A record is never changed: later calls on the same handle
/// do not show in it.
#[derive(Debug, Clone, PartialEq, Eq)]
pub struct ErrorRecord {
    status: i32,
    message: String,
    errno: i32,
}

impl View for ErrorRecord {
    type V = (i32, Seq<char>, i32);

    /// The status, the message and the error number.
    closed spec fn view(&self) -> (i32, Seq<char>, i32) {
        (self.status, self.message@, self.errno)
    }
}

/// Why an operation failed.
#[derive(Debug, Clone, PartialEq, Eq)]
#[non_exhaustive]
#[must_use]
pub enum Error {
    /// The engine reported a failure.
    GuestFsError(ErrorRecord),
    /// Moving data to or from the host's filesystem failed.
    IoError(String),
    /// Bytes from the engine are not valid UTF-8; the field is the length
    /// of the longest prefix of them that is.
    Utf8Error(usize),
    /// An argument holds a zero byte; the field is the index of the first.
    NulError(usize),
}

/// An error with its texts as sequences of characters.
pub enum ErrorView {
    /// The engine reported a failure with this status, message and error
    /// number.
    GuestFsError { status: i32, message: Seq<char>, errno: i32 },
    /// Moving data to or from the host's filesystem failed, as described.
    IoError(Seq<char>),
    /// Bytes from the engine are valid UTF-8 up to this length and no
    /// further.
    Utf8Error(usize),
    /// An argument holds its first zero byte at this index.
    NulError(usize),
}

impl View for Error {
    type V = ErrorView;

    open spec fn view(&self) -> ErrorView {
        match *self {
            Error::GuestFsError(record) => ErrorView::GuestFsError {
                status: record@.0,
                message: record@.1,
                errno: record@.2,
            },
            Error::IoError(description) => ErrorView::IoError(description@),
            Error::Utf8Error(valid_up_to) => ErrorView::Utf8Error(valid_up_to),
            Error::NulError(position) => ErrorView::NulError(position),
        }
    }
}

impl DeepView for Error {
    type V = ErrorView;

    open spec fn deep_view(&self) -> ErrorView {
        self@
    }
}

/// A result as contracts speak of it: the value and the error as the plain
/// data that they hold.
pub open spec fn outcome<T: DeepView>(r: Result<T, Error>) -> Result<T::V, ErrorView> {
    match r {
        Ok(value) => Ok(value.deep_view()),
        Err(e) => Err(e@),
    }
}

impl ErrorRecord {
    /// Records a failure of the engine.
    pub fn new(status: i32, message: String, errno: i32) -> (r: ErrorRecord)
        ensures
            r@ == (status, message@, errno),
    {
        ErrorRecord { status, message, errno }
    }

    /// The status that the failing call handed back; for a call that hands
    /// back a pointer, the engine's error number.
    pub fn status(&self) -> (r: i32)
        ensures
            r == self@.0,
    {
        self.status
    }

    /// The engine's message for the failure.
    pub fn message(&self) -> (r: &str)
        ensures
            r@ == self@.1,
    {
        self.message.as_str()
    }

    /// The engine's error number for the failure.
    pub fn errno(&self) -> (r: i32)
        ensures
            r == self@.2,
    {
        self.errno
    }
}

/// The character for a decimal digit.
pub open spec fn digit(d: nat) -> char {
    ('0' as nat + d) as char
}

/// A natural number in decimal notation, without leading zeros.
pub open spec fn decimal(n: nat) -> Seq<char>
    decreases n,
{
    if n < 10 {
        seq![digit(n)]
    } else {
        decimal(n / 10).push(digit(n % 10))
    }
}

/// An integer in decimal notation, with a minus sign where it is negative.
pub open spec fn signed_decimal(n: int) -> Seq<char> {
    if n < 0 {
        seq!['-'] + decimal((-n) as nat)
    } else {
        decimal(n as nat)
    }
}

/// The message that describes an error.
pub open spec fn description(e: ErrorView) -> Seq<char> {
    match e {
        ErrorView::GuestFsError { status, message, errno } => "libguestfs error: returned "@
            + signed_decimal(status as int) + ": "@ + message,
        ErrorView::IoError(description) => "I/O Error: "@ + description,
        ErrorView::Utf8Error(valid_up_to) => "Invalid UTF-8: bytes are valid up to index "@
            + decimal(valid_up_to as nat),
        ErrorView::NulError(position) => "Invalid CString: nul byte found at position "@
            + decimal(position as nat),
    }
}

/// The text of one decimal digit.
fn digit_str(d: u8) -> (s: &'static str)
    requires
        d < 10,
    ensures
        s@ == seq![digit(d as nat)],
{
    proof {
        reveal_strlit("0");
        reveal_strlit("1");
        reveal_strlit("2");
        reveal_strlit("3");
        reveal_strlit("4");
        reveal_strlit("5");
        reveal_strlit("6");
        reveal_strlit("7");
        reveal_strlit("8");
        reveal_strlit("9");
    }
    let s = if d == 0 {
        "0"
    } else if d == 1 {
        "1"
    } else if d == 2 {
        "2"
    } else if d == 3 {
        "3"
    } else if d == 4 {
        "4"
    } else if d == 5 {
        "5"
    } else if d == 6 {
        "6"
    } else if d == 7 {
        "7"
    } else if d == 8 {
        "8"
    } else {
        "9"
    };
    assert(s@ =~= seq![digit(d as nat)]);
    s
}

/// Appends a natural number in decimal notation to a text.
fn append_decimal(text: &mut String, n: u64)
    ensures
        final(text)@ == old(text)@ + decimal(n as nat),
    decreases n,
{
    if n >= 10 {
        append_decimal(text, n / 10);
    }
    let ghost before = text@;
    text.append(digit_str((n % 10) as u8));
    proof {
        if n >= 10 {
            assert(text@ =~= old(text)@ + decimal((n / 10) as nat).push(digit((n % 10) as nat)));
        } else {
            assert(text@ =~= old(text)@ + seq![digit(n as nat)]);
        }
    }
}

impl Error {
    /// The message that describes the error.
    pub fn to_string(&self) -> (s: String)
        ensures
            s@ == description(self@),
    {
        match self {
            Error::GuestFsError(record) => {
                let mut text = String::from_str("libguestfs error: returned ");
                if record.status < 0 {
                    text.append("-");
                    proof {
                        reveal_strlit("-");
                        assert("-"@ =~= seq!['-']);
                    }
                    append_decimal(&mut text, (-(record.status as i64)) as u64);
                } else {
                    append_decimal(&mut text, record.status as u64);
                }
                text.append(": ");
                text.append(record.message.as_str());
                assert(text@ =~= description(self@));
                text
            },
            Error::IoError(description) => {
                let mut text = String::from_str("I/O Error: ");
                text.append(description.as_str());
                text
            },
            Error::Utf8Error(valid_up_to) => {
                let mut text = String::from_str("Invalid UTF-8: bytes are valid up to index ");
                append_decimal(&mut text, *valid_up_to as u64);
                text
            },
            Error::NulError(position) => {
                let mut text = String::from_str("Invalid CString: nul byte found at position ");
                append_decimal(&mut text, *position as u64);
                text
            },
        }
    }
}

} // verus!
