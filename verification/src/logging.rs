//! Severity levels for the console collaborator and the helpers that
//! render a severity and a process id as styled text.
//!
//! The console writer itself lives outside the library; these functions
//! only compute the strings it prints.

use vstd::prelude::*;

verus! {

/// Severity of one console line.
#[derive(Debug)]
pub enum LogLevel {
    Info,
    Success,
    Warning,
    Error,
    Process,
    Action,
}

impl LogLevel {
    /// The `(prefix, color, symbol)` triple used to style a line of this
    /// severity.
    pub fn style(&self) -> (r: (&'static str, &'static str, &'static str))
        ensures
            self is Info ==> r.0@ == "INFO"@ && r.1@ == "\x1b[94m"@ && r.2@ == "\u{2139}"@,
            self is Success ==> r.0@ == "OK"@ && r.1@ == "\x1b[92m"@ && r.2@ == "\u{2713}"@,
            self is Warning ==> r.0@ == "WARN"@ && r.1@ == "\x1b[93m"@ && r.2@ == "\u{26a0}"@,
            self is Error ==> r.0@ == "ERROR"@ && r.1@ == "\x1b[91m"@ && r.2@ == "\u{2717}"@,
            self is Process ==> r.0@ == "LOG"@ && r.1@ == "\x1b[96m"@ && r.2@ == "\u{2192}"@,
            self is Action ==> r.0@ == "RUN"@ && r.1@ == "\x1b[95m"@ && r.2@ == "\u{26a1}"@,
    {
        match self {
            LogLevel::Info => ("INFO", "\x1b[94m", "\u{2139}"),
            LogLevel::Success => ("OK", "\x1b[92m", "\u{2713}"),
            LogLevel::Warning => ("WARN", "\x1b[93m", "\u{26a0}"),
            LogLevel::Error => ("ERROR", "\x1b[91m", "\u{2717}"),
            LogLevel::Process => ("LOG", "\x1b[96m", "\u{2192}"),
            LogLevel::Action => ("RUN", "\x1b[95m", "\u{26a1}"),
        }
    }
}

/// The decimal digit character for `d`; `'0'` for values past nine, which
/// the renderers below never produce.
pub open spec fn digit_char(d: int) -> char {
    if d == 1 {
        '1'
    } else if d == 2 {
        '2'
    } else if d == 3 {
        '3'
    } else if d == 4 {
        '4'
    } else if d == 5 {
        '5'
    } else if d == 6 {
        '6'
    } else if d == 7 {
        '7'
    } else if d == 8 {
        '8'
    } else if d == 9 {
        '9'
    } else {
        '0'
    }
}

/// The decimal rendering of a non-negative number, most significant digit
/// first, with no leading zero except for the number zero itself.
pub open spec fn dec_digits(n: int) -> Seq<char>
    decreases n,
{
    if n < 10 {
        seq![digit_char(n)]
    } else {
        dec_digits(n / 10).push(digit_char(n % 10))
    }
}

/// The decimal rendering of a possibly negative number: a leading minus
/// sign before the digits of its magnitude.
pub open spec fn int_digits(n: int) -> Seq<char> {
    if n < 0 {
        seq!['-'] + dec_digits(-n)
    } else {
        dec_digits(n)
    }
}

fn digit_str(d: u64) -> (s: &'static str)
    requires
        d < 10,
    ensures
        s@ == seq![digit_char(d as int)],
{
    proof {
        reveal_strlit("0");
        reveal_strlit("1");
        reveal_strlit("2");
        reveal_strlit("3");
        reveal_strlit("4");
        reveal_strlit("5");
        reveal_strlit("6");
        reveal_strlit("7");
        reveal_strlit("8");
        reveal_strlit("9");
    }
    let s = if d == 0 {
        "0"
    } else if d == 1 {
        "1"
    } else if d == 2 {
        "2"
    } else if d == 3 {
        "3"
    } else if d == 4 {
        "4"
    } else if d == 5 {
        "5"
    } else if d == 6 {
        "6"
    } else if d == 7 {
        "7"
    } else if d == 8 {
        "8"
    } else {
        "9"
    };
    proof {
        assert(s@ =~= seq![digit_char(d as int)]);
    }
    s
}

/// Renders `n` in decimal.
pub fn u64_to_dec(n: u64) -> (s: String)
    ensures
        s@ == dec_digits(n as int),
    decreases n,
{
    if n < 10 {
        String::from_str(digit_str(n))
    } else {
        let front = u64_to_dec(n / 10);
        let s = front.concat(digit_str(n % 10));
        proof {
            assert(s@ =~= dec_digits(n as int));
        }
        s
    }
}

/// Styles a process id for a console line: a dimmed parenthesis, a bold
/// `PID:` value, and the trailing dim marker that the caller's line closes.
pub fn format_pid(pid: i32) -> (s: String)
    ensures
        s@ == "\x1b[2m(\x1b[0mPID: \x1b[1m"@ + int_digits(pid as int) + "\x1b[2m"@,
{
    let magnitude: u64 = if pid < 0 {
        (-(pid as i64)) as u64
    } else {
        pid as u64
    };
    let digits = u64_to_dec(magnitude);
    let body = if pid < 0 {
        proof {
            reveal_strlit("-");
        }
        let signed = String::from_str("-").concat(digits.as_str());
        proof {
            assert(signed@ =~= int_digits(pid as int));
        }
        signed
    } else {
        digits
    };
    let s = String::from_str("\x1b[2m(\x1b[0mPID: \x1b[1m").concat(body.as_str()).concat(
        "\x1b[2m",
    );
    proof {
        assert(s@ =~= "\x1b[2m(\x1b[0mPID: \x1b[1m"@ + int_digits(pid as int) + "\x1b[2m"@);
    }
    s
}

} // verus!
