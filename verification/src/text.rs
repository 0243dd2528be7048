//! The diagnostic messages of the two errors.

use vstd::prelude::*;
use vstd::string::*;
use crate::args::ArgsError;
use crate::cell::{AlreadyPublished, Uninitialized};

verus! {

/// The character of one decimal digit.
pub open spec fn digit_char(d: int) -> char {
    if d == 0 {
        '0'
    } else if d == 1 {
        '1'
    } else if d == 2 {
        '2'
    } else if d == 3 {
        '3'
    } else if d == 4 {
        '4'
    } else if d == 5 {
        '5'
    } else if d == 6 {
        '6'
    } else if d == 7 {
        '7'
    } else if d == 8 {
        '8'
    } else {
        '9'
    }
}

/// A number in decimal, without sign or leading zeros.
pub open spec fn decimal(n: nat) -> Seq<char>
    decreases n,
{
    if n < 10 {
        seq![digit_char(n as int)]
    } else {
        decimal(n / 10).push(digit_char((n % 10) as int))
    }
}

/// The message of a read that ran out of attempts.
pub open spec fn uninitialized_text(name: Seq<char>, max_attempts: nat, interval_ms: nat) -> Seq<
    char,
> {
    "Singleton '"@ + name + "' not initialized after "@ + decimal(max_attempts) + " retries ("@
        + decimal(interval_ms) + "ms each). Call init() first."@
}

/// The message of a publish on an occupied cell.
pub open spec fn already_published_text(name: Seq<char>) -> Seq<char> {
    "Singleton '"@ + name + "' already initialized"@
}

/// The message of a refused argument list.
pub open spec fn args_error_text(error: ArgsError) -> Seq<char> {
    match error {
        ArgsError::ExpectedIdentifier => "expected identifier"@,
        ArgsError::ExpectedArcOrSleepMs => "Expected 'arc' or 'sleep_ms' parameter"@,
        ArgsError::ExpectedSleepMs => "Expected 'sleep_ms' parameter"@,
        ArgsError::ExpectedEquals => "expected `=`"@,
        ArgsError::ExpectedInteger => "expected integer literal"@,
        ArgsError::IntegerOutOfRange => "number too large to fit in target type"@,
        ArgsError::UnexpectedToken => "unexpected token"@,
    }
}

/// The message for arguments that ask for an interval of zero.
pub open spec fn zero_interval_text() -> Seq<char> {
    "sleep_ms must be positive"@
}

/// The message for arguments that ask for an interval of zero, from which
/// no wait policy can be made.
pub fn zero_interval_message() -> (s: String)
    ensures
        s@ == zero_interval_text(),
{
    String::from_str("sleep_ms must be positive")
}

fn digit_str(d: u64) -> (s: &'static str)
    requires
        d < 10,
    ensures
        s@ == seq![digit_char(d as int)],
{
    proof {
        reveal_strlit("0");
        reveal_strlit("1");
        reveal_strlit("2");
        reveal_strlit("3");
        reveal_strlit("4");
        reveal_strlit("5");
        reveal_strlit("6");
        reveal_strlit("7");
        reveal_strlit("8");
        reveal_strlit("9");
    }
    let s = if d == 0 {
        "0"
    } else if d == 1 {
        "1"
    } else if d == 2 {
        "2"
    } else if d == 3 {
        "3"
    } else if d == 4 {
        "4"
    } else if d == 5 {
        "5"
    } else if d == 6 {
        "6"
    } else if d == 7 {
        "7"
    } else if d == 8 {
        "8"
    } else {
        "9"
    };
    assert(s@ =~= seq![digit_char(d as int)]);
    s
}

/// Writes a number in decimal.
pub fn decimal_string(n: u64) -> (s: String)
    ensures
        s@ == decimal(n as nat),
    decreases n,
{
    if n < 10 {
        String::from_str(digit_str(n))
    } else {
        let head = decimal_string(n / 10);
        let s = head.concat(digit_str(n % 10));
        assert(s@ =~= decimal(n as nat));
        s
    }
}

impl Uninitialized {
    /// The message that names the cell, the attempts made and the interval
    /// slept between them.
    pub fn message(&self) -> (s: String)
        ensures
            s@ == uninitialized_text(
                self.name@,
                self.max_attempts as nat,
                self.interval_ms as nat,
            ),
    {
        let attempts = decimal_string(self.max_attempts as u64);
        let interval = decimal_string(self.interval_ms);
        let mut s = String::from_str("Singleton '");
        s.append(self.name.as_str());
        s.append("' not initialized after ");
        s.append(attempts.as_str());
        s.append(" retries (");
        s.append(interval.as_str());
        s.append("ms each). Call init() first.");
        s
    }
}

impl ArgsError {
    /// The message that says what the argument list lacks.
    pub fn message(&self) -> (s: String)
        ensures
            s@ == args_error_text(*self),
    {
        match self {
            ArgsError::ExpectedIdentifier => String::from_str("expected identifier"),
            ArgsError::ExpectedArcOrSleepMs => String::from_str(
                "Expected 'arc' or 'sleep_ms' parameter",
            ),
            ArgsError::ExpectedSleepMs => String::from_str("Expected 'sleep_ms' parameter"),
            ArgsError::ExpectedEquals => String::from_str("expected `=`"),
            ArgsError::ExpectedInteger => String::from_str("expected integer literal"),
            ArgsError::IntegerOutOfRange => String::from_str(
                "number too large to fit in target type",
            ),
            ArgsError::UnexpectedToken => String::from_str("unexpected token"),
        }
    }
}

impl<T> AlreadyPublished<T> {
    /// The message that names the cell.
    pub fn message(&self) -> (s: String)
        ensures
            s@ == already_published_text(self.name@),
    {
        let mut s = String::from_str("Singleton '");
        s.append(self.name.as_str());
        s.append("' already initialized");
        s
    }
}

} // verus!
