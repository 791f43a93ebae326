use vstd::prelude::*;
use vstd::string::*;

verus! {

/// The error of a write whose write concern was not met.
#[derive(Debug)]
pub struct WriteConcernNotSatisfiedError {
    pub required: usize,
    pub received: usize,
}

/// The decimal digit `d`.
pub open spec fn digit_char(d: nat) -> char {
    (48 + d) as char
}

/// The decimal representation of `n`, most significant digit first, with
/// no leading zero.
pub open spec fn decimal(n: nat) -> Seq<char>
    decreases n,
{
    if n < 10 {
        seq![digit_char(n)]
    } else {
        decimal(n / 10) + seq![digit_char(n % 10)]
    }
}

fn digit_str(d: usize) -> (s: &'static str)
    requires
        d < 10,
    ensures
        s@ == seq![digit_char(d as nat)],
{
    proof {
        reveal_strlit("0");
        reveal_strlit("1");
        reveal_strlit("2");
        reveal_strlit("3");
        reveal_strlit("4");
        reveal_strlit("5");
        reveal_strlit("6");
        reveal_strlit("7");
        reveal_strlit("8");
        reveal_strlit("9");
    }
    if d == 0 {
        "0"
    } else if d == 1 {
        "1"
    } else if d == 2 {
        "2"
    } else if d == 3 {
        "3"
    } else if d == 4 {
        "4"
    } else if d == 5 {
        "5"
    } else if d == 6 {
        "6"
    } else if d == 7 {
        "7"
    } else if d == 8 {
        "8"
    } else {
        "9"
    }
}

/// Appends the decimal representation of `n` to `s`.
fn push_decimal(s: &mut String, n: usize)
    ensures
        final(s)@ == old(s)@ + decimal(n as nat),
    decreases n,
{
    if n >= 10 {
        push_decimal(s, n / 10);
    }
    s.append(digit_str(n % 10));
    proof {
        if n >= 10 {
            assert(decimal(n as nat) == decimal((n / 10) as nat) + seq![digit_char((n % 10) as nat)]);
        }
    }
}

impl WriteConcernNotSatisfiedError {
    pub fn new(required: usize, received: usize) -> (e: WriteConcernNotSatisfiedError)
        ensures
            e.required == required,
            e.received == received,
    {
        WriteConcernNotSatisfiedError { required, received }
    }

    /// The text that describes the error.
    pub fn message(&self) -> (s: String)
        ensures
            s@ == "Write Concern Not Satisfied. Required: "@ + decimal(self.required as nat)
                + ", Received: "@ + decimal(self.received as nat),
    {
        let mut s = String::from_str("Write Concern Not Satisfied. Required: ");
        push_decimal(&mut s, self.required);
        s.append(", Received: ");
        push_decimal(&mut s, self.received);
        s
    }

    /// The HTTP status the error is answered with: an internal server error.
    pub fn status_code(&self) -> (code: u16)
        ensures
            code == 500,
    {
        500
    }
}

} // verus!
