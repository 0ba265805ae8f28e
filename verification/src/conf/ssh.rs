//! The address of the remote host.

use vstd::prelude::*;
use vstd::string::StringExecFns;
use super::SSHConfig;

verus! {

/// The character of a decimal digit.
pub open spec fn digit(value: int) -> char {
    seq!['0', '1', '2', '3', '4', '5', '6', '7', '8', '9'][value]
}

/// A number written in decimal, without leading zeros.
pub open spec fn decimal(n: nat) -> Seq<char>
    decreases n,
{
    if n < 10 {
        seq![digit(n as int)]
    } else {
        decimal(n / 10).push(digit((n % 10) as int))
    }
}

fn digit_text(value: u16) -> (text: &'static str)
    requires
        value < 10,
    ensures
        text@ == seq![digit(value as int)],
{
    proof {
        reveal_strlit("0");
        reveal_strlit("1");
        reveal_strlit("2");
        reveal_strlit("3");
        reveal_strlit("4");
        reveal_strlit("5");
        reveal_strlit("6");
        reveal_strlit("7");
        reveal_strlit("8");
        reveal_strlit("9");
    }
    let text = if value == 0 {
        "0"
    } else if value == 1 {
        "1"
    } else if value == 2 {
        "2"
    } else if value == 3 {
        "3"
    } else if value == 4 {
        "4"
    } else if value == 5 {
        "5"
    } else if value == 6 {
        "6"
    } else if value == 7 {
        "7"
    } else if value == 8 {
        "8"
    } else {
        "9"
    };
    proof {
        assert(text@ =~= seq![digit(value as int)]);
    }
    text
}

/// Writes a number in decimal.
pub fn write_decimal(n: u16) -> (text: String)
    ensures
        text@ == decimal(n as nat),
    decreases n,
{
    if n < 10 {
        String::from_str(digit_text(n))
    } else {
        let mut text = write_decimal(n / 10);
        text.append(digit_text(n % 10));
        proof {
            assert(text@ =~= decimal(n as nat));
        }
        text
    }
}

impl SSHConfig {
    /// Host and port the way a socket address is written.
    pub open spec fn spec_address(&self) -> Seq<char> {
        self.host@ + seq![':'] + decimal(self.port as nat)
    }

    /// The socket address of the remote host.
    pub fn address(&self) -> (address: String)
        ensures
            address@ == self.spec_address(),
    {
        let mut address = self.host.clone();
        address.append(":");
        address.append(write_decimal(self.port).as_str());
        proof {
            reveal_strlit(":");
            assert(":"@ =~= seq![':']);
        }
        address
    }
}

} // verus!
