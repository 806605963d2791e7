use vstd::prelude::*;
use vstd::std_specs::convert::FromSpecImpl;
use vstd::string::StringExecFns;

verus! {

/// The identifier of a process.
#[derive(Clone, Copy, Debug, PartialEq, Eq, Structural)]
pub enum Pid {
    /// The calling process.
    Slf,
    /// The process with the given number. Zero names no process;
    /// [`Pid::from`] maps it to [`Pid::Slf`].
    Pid(u32),
}

/// The character that stands for the digit `d`.
pub open spec fn digit_char(d: nat) -> char {
    if d == 0 {
        '0'
    } else if d == 1 {
        '1'
    } else if d == 2 {
        '2'
    } else if d == 3 {
        '3'
    } else if d == 4 {
        '4'
    } else if d == 5 {
        '5'
    } else if d == 6 {
        '6'
    } else if d == 7 {
        '7'
    } else if d == 8 {
        '8'
    } else {
        '9'
    }
}

/// The decimal notation of `n`, most significant digit first and without
/// leading zeros.
pub open spec fn decimal(n: nat) -> Seq<char>
    decreases n,
{
    if n < 10 {
        seq![digit_char(n)]
    } else {
        decimal(n / 10).push(digit_char(n % 10))
    }
}

/// The text that a process identifier is shown as.
pub open spec fn pid_text(pid: Pid) -> Seq<char> {
    match pid {
        Pid::Slf => seq!['s', 'e', 'l', 'f'],
        Pid::Pid(n) => decimal(n as nat),
    }
}

/// The one-character string for the digit `d`.
fn digit_str(d: u32) -> (s: &'static str)
    requires
        d < 10,
    ensures
        s@ == seq![digit_char(d as nat)],
{
    proof {
        reveal_strlit("0");
        reveal_strlit("1");
        reveal_strlit("2");
        reveal_strlit("3");
        reveal_strlit("4");
        reveal_strlit("5");
        reveal_strlit("6");
        reveal_strlit("7");
        reveal_strlit("8");
        reveal_strlit("9");
    }
    let s = if d == 0 {
        "0"
    } else if d == 1 {
        "1"
    } else if d == 2 {
        "2"
    } else if d == 3 {
        "3"
    } else if d == 4 {
        "4"
    } else if d == 5 {
        "5"
    } else if d == 6 {
        "6"
    } else if d == 7 {
        "7"
    } else if d == 8 {
        "8"
    } else {
        "9"
    };
    assert(s@ =~= seq![digit_char(d as nat)]);
    s
}

/// Write `n` in decimal notation.
pub fn decimal_string(n: u32) -> (s: String)
    ensures
        s@ == decimal(n as nat),
{
    let mut rest: u32 = n;
    let mut low = String::new();
    while rest >= 10
        invariant
            decimal(n as nat) == decimal(rest as nat) + low@,
        decreases rest,
    {
        let mut digits = String::from_str(digit_str(rest % 10));
        digits.append(low.as_str());
        proof {
            let r = rest as nat;
            assert(decimal(r) == decimal(r / 10).push(digit_char(r % 10)));
            assert(decimal(r) + low@ =~= decimal(r / 10) + digits@);
        }
        low = digits;
        rest = rest / 10;
    }
    let mut digits = String::from_str(digit_str(rest));
    digits.append(low.as_str());
    digits
}

impl Pid {
    /// The text that this identifier is shown as: `self` for the calling
    /// process, the number in decimal notation for any other.
    pub fn to_string(&self) -> (s: String)
        ensures
            s@ == pid_text(*self),
    {
        match self {
            Pid::Slf => {
                proof {
                    reveal_strlit("self");
                }
                let s = String::from_str("self");
                assert(s@ =~= pid_text(*self));
                s
            },
            Pid::Pid(n) => decimal_string(*n),
        }
    }
}

impl From<u32> for Pid {
    /// The process with number `pid`, or the calling process for zero.
    fn from(pid: u32) -> (p: Pid) {
        if pid == 0 {
            Pid::Slf
        } else {
            Pid::Pid(pid)
        }
    }
}

impl FromSpecImpl<u32> for Pid {
    open spec fn obeys_from_spec() -> bool {
        true
    }

    open spec fn from_spec(pid: u32) -> Pid {
        if pid == 0 {
            Pid::Slf
        } else {
            Pid::Pid(pid)
        }
    }
}

} // verus!
