use vstd::prelude::*;

verus! {

/// Identifier of one recurring renewal task; allocated in increasing order
/// starting from zero.
#[derive(Clone, Copy, Debug, PartialEq, Eq, Structural, PartialOrd, Ord, Hash, Default)]
pub struct TaskId(pub u64);

/// The decimal digits of `n` as characters, most significant first.
pub open spec fn decimal_chars(n: nat) -> Seq<char>
    decreases n,
{
    if n < 10 {
        seq![(48 + n) as char]
    } else {
        decimal_chars(n / 10).push((48 + n % 10) as char)
    }
}

/// The decimal digits of `n` as ASCII bytes, most significant first.
pub open spec fn decimal_bytes(n: nat) -> Seq<u8>
    decreases n,
{
    if n < 10 {
        seq![(48 + n) as u8]
    } else {
        decimal_bytes(n / 10).push((48 + n % 10) as u8)
    }
}

/// The tag under which the scheduler files a task: `task_` and the decimal id.
pub open spec fn task_tag(id: u64) -> Seq<char> {
    seq!['t', 'a', 's', 'k', '_'] + decimal_chars(id as nat)
}

/// The decimal digit `d` as a one-character string.
fn digit_str(d: u64) -> (r: &'static str)
    requires
        d < 10,
    ensures
        r@ == seq![(48 + d) as char],
{
    match d {
        0 => {
            proof {
                reveal_strlit("0");
            }
            "0"
        },
        1 => {
            proof {
                reveal_strlit("1");
            }
            "1"
        },
        2 => {
            proof {
                reveal_strlit("2");
            }
            "2"
        },
        3 => {
            proof {
                reveal_strlit("3");
            }
            "3"
        },
        4 => {
            proof {
                reveal_strlit("4");
            }
            "4"
        },
        5 => {
            proof {
                reveal_strlit("5");
            }
            "5"
        },
        6 => {
            proof {
                reveal_strlit("6");
            }
            "6"
        },
        7 => {
            proof {
                reveal_strlit("7");
            }
            "7"
        },
        8 => {
            proof {
                reveal_strlit("8");
            }
            "8"
        },
        _ => {
            proof {
                reveal_strlit("9");
            }
            "9"
        },
    }
}

/// Appends the decimal digits of `n` to `out`.
fn push_decimal_chars(out: &mut String, n: u64)
    ensures
        final(out)@ == old(out)@ + decimal_chars(n as nat),
    decreases n,
{
    if n >= 10 {
        push_decimal_chars(out, n / 10);
    }
    out.append(digit_str(n % 10));
}

/// Appends the decimal digits of `n` to `out`.
pub fn push_decimal(out: &mut Vec<u8>, n: u64)
    ensures
        final(out)@ == old(out)@ + decimal_bytes(n as nat),
    decreases n,
{
    if n >= 10 {
        push_decimal(out, n / 10);
    }
    let d: u8 = (n % 10) as u8;
    out.push(48u8 + d);
}

impl TaskId {
    /// The identifier allocated right after this one.
    pub fn next_id(self) -> (r: Self)
        requires
            self.0 < u64::MAX,
        ensures
            r.0 == self.0 + 1,
    {
        TaskId(self.0 + 1)
    }

    /// The scheduler label of the id: "task_" followed by its decimal digits.
    pub fn tag(&self) -> (r: String)
        ensures
            r@ == task_tag(self.0),
    {
        let mut r = String::from_str("task_");
        proof {
            reveal_strlit("task_");
        }
        push_decimal_chars(&mut r, self.0);
        r
    }
}

/// One recurring renewal obligation: the schedule expression handed verbatim
/// to the scheduler and the name to renew.
#[derive(Clone, Debug, PartialEq, Eq)]
pub struct TaskEntry {
    pub frequency: String,
    pub domain_name: String,
}

/// Process-wide parameters: the native denomination that funds scheduled
/// tasks, the amount attached when a task is created, and the balance below
/// which a task should be refilled.
#[derive(Clone, Debug, PartialEq, Eq)]
pub struct Config {
    pub native_denom: String,
    pub task_creation_amount: u128,
    pub refill_threshold: u128,
}

} // verus!
