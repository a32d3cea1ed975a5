//! The two ways in which building a buffer fails, and their messages.

use vstd::prelude::*;

verus! {

/// Why a buffer could not be built.
#[derive(Debug)]
pub enum MagicBufferError {
    /// The operating system refused a reservation, a mapping or a section.
    OOM,
    /// The requested length cannot be mapped twice.
    InvalidLen {
        /// Which rule the length breaks.
        msg: String,
    },
}

/// The character that stands for the digit `d`.
pub open spec fn digit(d: nat) -> char
    recommends
        d < 10,
{
    if d == 0 {
        '0'
    } else if d == 1 {
        '1'
    } else if d == 2 {
        '2'
    } else if d == 3 {
        '3'
    } else if d == 4 {
        '4'
    } else if d == 5 {
        '5'
    } else if d == 6 {
        '6'
    } else if d == 7 {
        '7'
    } else if d == 8 {
        '8'
    } else {
        '9'
    }
}

/// `n` written in base ten, most significant digit first, without padding.
pub open spec fn decimal(n: nat) -> Seq<char>
    decreases n,
{
    if n < 10 {
        seq![digit(n)]
    } else {
        decimal(n / 10).push(digit(n % 10))
    }
}

/// What an error says of itself.
pub open spec fn message(e: MagicBufferError) -> Seq<char> {
    match e {
        MagicBufferError::OOM => "out of memory"@,
        MagicBufferError::InvalidLen { msg } => "invalid buffer len, "@ + msg@,
    }
}

fn digit_str(d: usize) -> (s: &'static str)
    requires
        d < 10,
    ensures
        s@ == seq![digit(d as nat)],
{
    proof {
        reveal_strlit("0");
        reveal_strlit("1");
        reveal_strlit("2");
        reveal_strlit("3");
        reveal_strlit("4");
        reveal_strlit("5");
        reveal_strlit("6");
        reveal_strlit("7");
        reveal_strlit("8");
        reveal_strlit("9");
    }
    let s = if d == 0 {
        "0"
    } else if d == 1 {
        "1"
    } else if d == 2 {
        "2"
    } else if d == 3 {
        "3"
    } else if d == 4 {
        "4"
    } else if d == 5 {
        "5"
    } else if d == 6 {
        "6"
    } else if d == 7 {
        "7"
    } else if d == 8 {
        "8"
    } else {
        "9"
    };
    assert(s@ =~= seq![digit(d as nat)]);
    s
}

/// Writes `n` in base ten.
pub fn decimal_string(n: usize) -> (s: String)
    ensures
        s@ == decimal(n as nat),
    decreases n,
{
    if n < 10 {
        String::from_str(digit_str(n))
    } else {
        let head = decimal_string(n / 10);
        let s = head.concat(digit_str(n % 10));
        assert(s@ =~= decimal((n / 10) as nat).push(digit((n % 10) as nat)));
        s
    }
}

impl MagicBufferError {
    /// The message of this error: `out of memory`, or `invalid buffer len, `
    /// followed by the rule that the length breaks.
    pub fn to_string(&self) -> (s: String)
        ensures
            s@ == message(*self),
    {
        match self {
            MagicBufferError::OOM => String::from_str("out of memory"),
            MagicBufferError::InvalidLen { msg } => {
                String::from_str("invalid buffer len, ").concat(msg.as_str())
            },
        }
    }
}

} // verus!
