//! The server's command line: `--port <port> --dir <directory>`, in that order.

use vstd::prelude::*;
use vstd::string::*;
use crate::text::{chars_of, texts};

verus! {

/// The port that is used where none is given, or none that can be read.
pub const DEFAULT_PORT: u16 = 3000;

/// What the command line asks for.
#[derive(Debug, Clone, PartialEq, Eq)]
pub struct ServerArgs {
    /// The port to listen on.
    pub port: u16,
    /// The directory to serve first: none stands for the current directory.
    pub dir: Option<String>,
}

/// The command line in contracts.
pub struct ServerArgsView {
    pub port: u16,
    pub dir: Option<Seq<char>>,
}

impl View for ServerArgs {
    type V = ServerArgsView;

    open spec fn view(&self) -> ServerArgsView {
        ServerArgsView {
            port: self.port,
            dir: match self.dir {
                Some(d) => Some(d@),
                None => None,
            },
        }
    }
}

/// The digit that `c` stands for, if it is a decimal digit.
pub open spec fn digit_of(c: char) -> Option<int> {
    if c == '0' {
        Some(0)
    } else if c == '1' {
        Some(1)
    } else if c == '2' {
        Some(2)
    } else if c == '3' {
        Some(3)
    } else if c == '4' {
        Some(4)
    } else if c == '5' {
        Some(5)
    } else if c == '6' {
        Some(6)
    } else if c == '7' {
        Some(7)
    } else if c == '8' {
        Some(8)
    } else if c == '9' {
        Some(9)
    } else {
        None
    }
}

/// Every character of `s` is a decimal digit.
pub open spec fn all_digits(s: Seq<char>) -> bool {
    forall|i: int| 0 <= i < s.len() ==> digit_of(#[trigger] s[i]) is Some
}

/// The number that the digits of `s` write in base ten.
pub open spec fn decimal_value(s: Seq<char>) -> int
    decreases s.len(),
{
    if s.len() == 0 {
        0
    } else {
        decimal_value(s.drop_last()) * 10 + match digit_of(s.last()) {
            Some(d) => d,
            None => 0,
        }
    }
}

/// The digits of a number that may have a plus sign in front.
pub open spec fn unsigned_digits(s: Seq<char>) -> Seq<char> {
    if s.len() > 0 && s[0] == '+' {
        s.drop_first()
    } else {
        s
    }
}

/// The port that `s` writes: one or more decimal digits, a plus sign in front
/// of them or not, that give a number up to 65535.
pub open spec fn port_of(s: Seq<char>) -> Option<u16> {
    let digits = unsigned_digits(s);
    if digits.len() > 0 && all_digits(digits) && decimal_value(digits) <= u16::MAX {
        Some(decimal_value(digits) as u16)
    } else {
        None
    }
}

/// What the command line asks for. The port is read only behind `--port` in
/// the first place, the directory only behind `--dir` in the third.
pub open spec fn server_args_of(args: Seq<Seq<char>>) -> ServerArgsView {
    ServerArgsView {
        port: if args.len() > 2 && args[1] == "--port"@ {
            match port_of(args[2]) {
                Some(port) => port,
                None => DEFAULT_PORT,
            }
        } else {
            DEFAULT_PORT
        },
        dir: if args.len() > 4 && args[3] == "--dir"@ {
            Some(args[4])
        } else {
            None
        },
    }
}

/// The value of digits does not shrink when more digits follow.
proof fn lemma_decimal_value_grows(s: Seq<char>, i: int)
    requires
        0 <= i <= s.len(),
    ensures
        0 <= decimal_value(s.subrange(0, i)) <= decimal_value(s),
    decreases s.len() - i,
{
    if i == 0 {
        lemma_decimal_value_nonnegative(s);
    } else if i == s.len() {
        assert(s.subrange(0, i) =~= s);
        lemma_decimal_value_nonnegative(s);
    } else {
        lemma_decimal_value_grows(s, i + 1);
        let longer = s.subrange(0, i + 1);
        assert(longer.drop_last() =~= s.subrange(0, i));
        lemma_decimal_value_nonnegative(s.subrange(0, i));
    }
}

proof fn lemma_decimal_value_nonnegative(s: Seq<char>)
    ensures
        0 <= decimal_value(s),
    decreases s.len(),
{
    if s.len() > 0 {
        lemma_decimal_value_nonnegative(s.drop_last());
    }
}

/// The digit that `c` stands for, if it is a decimal digit.
pub fn digit(c: char) -> (d: Option<u32>)
    ensures
        match d {
            Some(v) => digit_of(c) == Some(v as int),
            None => digit_of(c) is None,
        },
{
    if c == '0' {
        Some(0)
    } else if c == '1' {
        Some(1)
    } else if c == '2' {
        Some(2)
    } else if c == '3' {
        Some(3)
    } else if c == '4' {
        Some(4)
    } else if c == '5' {
        Some(5)
    } else if c == '6' {
        Some(6)
    } else if c == '7' {
        Some(7)
    } else if c == '8' {
        Some(8)
    } else if c == '9' {
        Some(9)
    } else {
        None
    }
}

/// The port that `s` writes, if it writes one.
pub fn parse_port(s: &str) -> (port: Option<u16>)
    ensures
        port == port_of(s@),
{
    let chars = chars_of(s);
    let start: usize = if chars.len() > 0 && chars[0] == '+' {
        1
    } else {
        0
    };
    let ghost digits = unsigned_digits(s@);
    if start == chars.len() {
        return None;
    }
    let mut value: u32 = 0;
    let mut i: usize = start;
    while i < chars.len()
        invariant
            start <= i <= chars.len(),
            chars@ == s@,
            digits == s@.subrange(start as int, s@.len() as int),
            digits == unsigned_digits(s@),
            all_digits(digits.subrange(0, i - start)),
            value == decimal_value(digits.subrange(0, i - start)),
            value <= u16::MAX,
        decreases chars.len() - i,
    {
        let ghost taken = digits.subrange(0, i - start);
        let ghost more = digits.subrange(0, i - start + 1);
        proof {
            assert(more.drop_last() =~= taken);
        }
        match digit(chars[i]) {
            Some(d) => {
                let next = value * 10 + d;
                if next > 65535 {
                    proof {
                        lemma_decimal_value_grows(digits, i - start + 1);
                    }
                    return None;
                }
                value = next;
            },
            None => {
                return None;
            },
        }
        i += 1;
    }
    assert(digits.subrange(0, digits.len() as int) =~= digits);
    Some(value as u16)
}

/// What the command line `args` asks for, where `args[0]` is the program.
pub fn parse_server_args(args: &Vec<String>) -> (asked: ServerArgs)
    ensures
        asked@ == server_args_of(texts(args@)),
{
    let port_flag = String::from_str("--port");
    let dir_flag = String::from_str("--dir");
    let port = if args.len() > 2 && args[1] == port_flag {
        match parse_port(args[2].as_str()) {
            Some(port) => port,
            None => DEFAULT_PORT,
        }
    } else {
        DEFAULT_PORT
    };
    let dir = if args.len() > 4 && args[3] == dir_flag {
        Some(args[4].clone())
    } else {
        None
    };
    ServerArgs { port, dir }
}

} // verus!
