//! The availability result and the exact text of its messages.

use vstd::prelude::*;
use vstd::string::StringExecFns;

verus! {

/// The character for one decimal digit `d` (`d < 10`).
pub open spec fn digit_char(d: nat) -> char {
    if d == 0 {
        '0'
    } else if d == 1 {
        '1'
    } else if d == 2 {
        '2'
    } else if d == 3 {
        '3'
    } else if d == 4 {
        '4'
    } else if d == 5 {
        '5'
    } else if d == 6 {
        '6'
    } else if d == 7 {
        '7'
    } else if d == 8 {
        '8'
    } else {
        '9'
    }
}

/// The decimal digits of `n`, most significant first, without leading zeros
/// (`0` is rendered as `"0"`).
pub open spec fn decimal_digits(n: nat) -> Seq<char>
    decreases n,
{
    if n < 10 {
        seq![digit_char(n)]
    } else {
        decimal_digits(n / 10) + seq![digit_char(n % 10)]
    }
}

/// The message reported when a session could not be established;
/// `detail` is the service's own description of the failure.
pub open spec fn session_failure_message(detail: Seq<char>) -> Seq<char> {
    "Failed to establish NFC context: "@ + detail
}

/// The message reported when a session was established but the readers
/// could not be enumerated.
pub open spec fn enumeration_failure_message(detail: Seq<char>) -> Seq<char> {
    "Failed to list readers: "@ + detail
}

/// The message reported when enumeration succeeded but found no reader.
pub open spec fn no_readers_message() -> Seq<char> {
    "No NFC readers detected"@
}

/// The message reported when `n` readers were found.
pub open spec fn found_message(n: nat) -> Seq<char> {
    "Found "@ + decimal_digits(n) + " NFC reader(s)"@
}

/// The outcome of one availability probe: a flag and a human-readable
/// explanation.
pub struct NfcStatus {
    pub available: bool,
    pub message: String,
}

impl NfcStatus {
    /// A status is well formed when its message matches its flag: a positive
    /// reader count when available, and one of the three failure texts
    /// otherwise.
    pub open spec fn wf(&self) -> bool {
        if self.available {
            exists|n: nat| n >= 1 && self.message@ == found_message(n)
        } else {
            self.message@ == no_readers_message() || (exists|d: Seq<char>|
                self.message@ == session_failure_message(d)) || (exists|d: Seq<char>|
                self.message@ == enumeration_failure_message(d))
        }
    }
}

/// A session failure is always reported under the fixed heading: its message
/// begins with the literal text `"Failed to establish NFC context: "`,
/// followed by the service's description.
pub proof fn lemma_session_failure_prefix(detail: Seq<char>)
    ensures
        session_failure_message(detail).len() == "Failed to establish NFC context: "@.len()
            + detail.len(),
        session_failure_message(detail).subrange(
            0,
            "Failed to establish NFC context: "@.len() as int,
        ) == "Failed to establish NFC context: "@,
        session_failure_message(detail).skip("Failed to establish NFC context: "@.len() as int)
            == detail,
{
    assert(session_failure_message(detail).subrange(
        0,
        "Failed to establish NFC context: "@.len() as int,
    ) =~= "Failed to establish NFC context: "@);
    assert(session_failure_message(detail).skip("Failed to establish NFC context: "@.len() as int)
        =~= detail);
}

/// An enumeration failure is always reported under the fixed heading: its
/// message begins with the literal text `"Failed to list readers: "`,
/// followed by the service's description.
pub proof fn lemma_enumeration_failure_prefix(detail: Seq<char>)
    ensures
        enumeration_failure_message(detail).len() == "Failed to list readers: "@.len()
            + detail.len(),
        enumeration_failure_message(detail).subrange(0, "Failed to list readers: "@.len() as int)
            == "Failed to list readers: "@,
        enumeration_failure_message(detail).skip("Failed to list readers: "@.len() as int)
            == detail,
{
    assert(enumeration_failure_message(detail).subrange(
        0,
        "Failed to list readers: "@.len() as int,
    ) =~= "Failed to list readers: "@);
    assert(enumeration_failure_message(detail).skip("Failed to list readers: "@.len() as int)
        =~= detail);
}

/// One-character string slice for the decimal digit `d`.
fn digit_str(d: usize) -> (s: &'static str)
    requires
        d < 10,
    ensures
        s@ == seq![digit_char(d as nat)],
{
    proof {
        reveal_strlit("0");
        reveal_strlit("1");
        reveal_strlit("2");
        reveal_strlit("3");
        reveal_strlit("4");
        reveal_strlit("5");
        reveal_strlit("6");
        reveal_strlit("7");
        reveal_strlit("8");
        reveal_strlit("9");
    }
    if d == 0 {
        proof { assert("0"@ =~= seq![digit_char(0)]); }
        "0"
    } else if d == 1 {
        proof { assert("1"@ =~= seq![digit_char(1)]); }
        "1"
    } else if d == 2 {
        proof { assert("2"@ =~= seq![digit_char(2)]); }
        "2"
    } else if d == 3 {
        proof { assert("3"@ =~= seq![digit_char(3)]); }
        "3"
    } else if d == 4 {
        proof { assert("4"@ =~= seq![digit_char(4)]); }
        "4"
    } else if d == 5 {
        proof { assert("5"@ =~= seq![digit_char(5)]); }
        "5"
    } else if d == 6 {
        proof { assert("6"@ =~= seq![digit_char(6)]); }
        "6"
    } else if d == 7 {
        proof { assert("7"@ =~= seq![digit_char(7)]); }
        "7"
    } else if d == 8 {
        proof { assert("8"@ =~= seq![digit_char(8)]); }
        "8"
    } else {
        proof { assert("9"@ =~= seq![digit_char(9)]); }
        "9"
    }
}

/// Renders `n` in decimal.
pub fn decimal_string(n: usize) -> (s: String)
    ensures
        s@ == decimal_digits(n as nat),
    decreases n,
{
    if n < 10 {
        String::from_str(digit_str(n))
    } else {
        let mut s = decimal_string(n / 10);
        s.append(digit_str(n % 10));
        proof {
            assert(s@ =~= decimal_digits(n as nat));
        }
        s
    }
}

} // verus!
