//! The captured result of one run of the external tool, the closed error
//! taxonomy, and the human-readable rendering of each error.

use vstd::prelude::*;

verus! {

/// How a finished child process exited: whether it succeeded, and its
/// numeric exit code when the operating system reported one (absent when the
/// process was ended by a signal rather than exiting normally).
#[derive(Debug, Clone, Copy)]
pub struct ExitStatus {
    pub success: bool,
    pub code: Option<i32>,
}

/// Everything captured from one completed run of the external tool: the raw
/// output bytes, the raw error bytes (kept for diagnostics only), and how
/// the process exited.
#[derive(Debug, Clone)]
pub struct Output {
    pub stdout: Vec<u8>,
    pub stderr: Vec<u8>,
    pub status: ExitStatus,
}

/// Why the external tool could not be started at all; carries the operating
/// system's description of the failure.
#[derive(Debug, Clone)]
pub struct LaunchFailure {
    pub message: String,
}

/// Why captured output could not be decoded as text; carries the offending
/// bytes and the length of their longest valid prefix.
#[derive(Debug, Clone)]
pub struct DecodeFailure {
    pub bytes: Vec<u8>,
    pub valid_up_to: usize,
}

/// How one invocation of the external tool went: either it ran to an end
/// and everything was captured, or it could not be launched at all.
#[derive(Debug, Clone)]
pub enum SpawnOutcome {
    Completed(Output),
    LaunchFailed(LaunchFailure),
}

/// An error that may occur while trying to use `llvm-config`.
#[derive(Debug, Clone)]
pub enum Error {
    /// The output wasn't valid UTF-8.
    Utf8(DecodeFailure),
    /// Unable to invoke `llvm-config`.
    UnableToInvoke(LaunchFailure),
    /// The command ran to completion, but finished with an unsuccessful
    /// status code.
    BadExitCode(Output),
}

/// The character for one decimal digit.
pub open spec fn digit_char(d: nat) -> char {
    if d == 0 {
        '0'
    } else if d == 1 {
        '1'
    } else if d == 2 {
        '2'
    } else if d == 3 {
        '3'
    } else if d == 4 {
        '4'
    } else if d == 5 {
        '5'
    } else if d == 6 {
        '6'
    } else if d == 7 {
        '7'
    } else if d == 8 {
        '8'
    } else {
        '9'
    }
}

/// The decimal digits of a non-negative number, most significant first.
pub open spec fn decimal_digits(n: nat) -> Seq<char>
    decreases n,
{
    if n < 10 {
        seq![digit_char(n)]
    } else {
        decimal_digits(n / 10).push(digit_char(n % 10))
    }
}

/// The decimal rendering of an integer, with a minus sign when negative.
pub open spec fn decimal_string(n: int) -> Seq<char> {
    if n < 0 {
        seq!['-'] + decimal_digits((-n) as nat)
    } else {
        decimal_digits(n as nat)
    }
}

/// Appends the decimal digits of `n` to the string.
fn push_decimal_digits(s: &mut String, n: u32)
    ensures
        final(s)@ == old(s)@ + decimal_digits(n as nat),
    decreases n,
{
    let ghost pre = s@;
    if n >= 10 {
        push_decimal_digits(s, n / 10);
    }
    let m = n % 10;
    let d: &str = if m == 0 {
        "0"
    } else if m == 1 {
        "1"
    } else if m == 2 {
        "2"
    } else if m == 3 {
        "3"
    } else if m == 4 {
        "4"
    } else if m == 5 {
        "5"
    } else if m == 6 {
        "6"
    } else if m == 7 {
        "7"
    } else if m == 8 {
        "8"
    } else {
        "9"
    };
    s.append(d);
    proof {
        reveal_strlit("0");
        reveal_strlit("1");
        reveal_strlit("2");
        reveal_strlit("3");
        reveal_strlit("4");
        reveal_strlit("5");
        reveal_strlit("6");
        reveal_strlit("7");
        reveal_strlit("8");
        reveal_strlit("9");
        assert(d@ =~= seq![digit_char(n as nat % 10)]);
        if n >= 10 {
            assert(decimal_digits(n as nat) =~= decimal_digits(n as nat / 10) + seq![
                digit_char(n as nat % 10),
            ]);
            assert(s@ =~= pre + decimal_digits(n as nat));
        } else {
            assert(s@ =~= pre + decimal_digits(n as nat));
        }
    }
}

/// Appends the decimal rendering of `n` to the string.
fn push_decimal(s: &mut String, n: i32)
    ensures
        final(s)@ == old(s)@ + decimal_string(n as int),
{
    let ghost pre = s@;
    if n < 0 {
        s.append("-");
        let m: u32 = (-(n as i64)) as u32;
        push_decimal_digits(s, m);
        proof {
            reveal_strlit("-");
            assert(s@ =~= pre + decimal_string(n as int));
        }
    } else {
        push_decimal_digits(s, n as u32);
    }
}

/// The human-readable rendering of each error variant; for an unsuccessful
/// exit the numeric code is included exactly when the operating system
/// reported one.
pub open spec fn spec_message(e: Error) -> Seq<char> {
    match e {
        Error::Utf8(_) => "The output wasn't valid UTF-8"@,
        Error::UnableToInvoke(_) =>
            "Unable to invoke llvm-config. Is it installed and on your $PATH?"@,
        Error::BadExitCode(out) => match out.status.code {
            Option::Some(c) => "llvm-config ran unsuccessfully"@ + " with exit code "@
                + decimal_string(c as int),
            Option::None => "llvm-config ran unsuccessfully"@,
        },
    }
}

impl Error {
    /// Renders the error for end users, exactly as `spec_message` states.
    pub fn message(&self) -> (r: String)
        ensures
            r@ == spec_message(*self),
    {
        match self {
            Error::Utf8(_) => String::from_str("The output wasn't valid UTF-8"),
            Error::UnableToInvoke(_) => String::from_str(
                "Unable to invoke llvm-config. Is it installed and on your $PATH?",
            ),
            Error::BadExitCode(out) => {
                let mut s = String::from_str("llvm-config ran unsuccessfully");
                match out.status.code {
                    Option::Some(code) => {
                        s.append(" with exit code ");
                        push_decimal(&mut s, code);
                    },
                    Option::None => {},
                }
                s
            },
        }
    }
}

} // verus!
