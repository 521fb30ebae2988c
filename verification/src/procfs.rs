//! The files under `/proc` through which the supervisor reaches a tracee.
use vstd::prelude::*;
use vstd::string::StringExecFns;

verus! {

/// The character of the decimal digit `digit`.
pub open spec fn digit_char(digit: nat) -> char {
    if digit == 0 {
        '0'
    } else if digit == 1 {
        '1'
    } else if digit == 2 {
        '2'
    } else if digit == 3 {
        '3'
    } else if digit == 4 {
        '4'
    } else if digit == 5 {
        '5'
    } else if digit == 6 {
        '6'
    } else if digit == 7 {
        '7'
    } else if digit == 8 {
        '8'
    } else {
        '9'
    }
}

/// The decimal digits of `number`, without leading zeros.
pub open spec fn digits(number: nat) -> Seq<char>
    decreases number,
{
    if number < 10 {
        seq![digit_char(number)]
    } else {
        digits(number / 10).push(digit_char(number % 10))
    }
}

/// The decimal text of `number`: its digits, behind a minus sign where it is
/// negative.
pub open spec fn decimal_text(number: int) -> Seq<char> {
    if number < 0 {
        seq!['-'] + digits((-number) as nat)
    } else {
        digits(number as nat)
    }
}

/// The path of the working directory of the process `pid`.
pub open spec fn cwd_path_of(pid: u32) -> Seq<char> {
    "/proc/"@ + decimal_text(pid as int) + "/cwd"@
}

/// The path of the memory of the process `pid`.
pub open spec fn mem_path_of(pid: i32) -> Seq<char> {
    "/proc/"@ + decimal_text(pid as int) + "/mem"@
}

/// The path of the file descriptor `fd` of the process `pid`.
pub open spec fn fd_path_of(pid: i32, fd: i32) -> Seq<char> {
    "/proc/"@ + decimal_text(pid as int) + "/fd/"@ + decimal_text(fd as int)
}

fn digit_text(digit: u64) -> (text: &'static str)
    requires
        digit < 10,
    ensures
        text@ == seq![digit_char(digit as nat)],
{
    proof {
        reveal_strlit("0");
        reveal_strlit("1");
        reveal_strlit("2");
        reveal_strlit("3");
        reveal_strlit("4");
        reveal_strlit("5");
        reveal_strlit("6");
        reveal_strlit("7");
        reveal_strlit("8");
        reveal_strlit("9");
    }
    let text = if digit == 0 {
        "0"
    } else if digit == 1 {
        "1"
    } else if digit == 2 {
        "2"
    } else if digit == 3 {
        "3"
    } else if digit == 4 {
        "4"
    } else if digit == 5 {
        "5"
    } else if digit == 6 {
        "6"
    } else if digit == 7 {
        "7"
    } else if digit == 8 {
        "8"
    } else {
        "9"
    };
    assert(text@ =~= seq![digit_char(digit as nat)]);
    text
}

fn append_digits(text: &mut String, number: u64)
    ensures
        final(text)@ == old(text)@ + digits(number as nat),
    decreases number,
{
    if number >= 10 {
        append_digits(text, number / 10);
    }
    let ghost before = text@;
    text.append(digit_text(number % 10));
    proof {
        if number >= 10 {
            assert(text@ =~= old(text)@ + digits((number / 10) as nat).push(
                digit_char((number % 10) as nat),
            ));
        } else {
            assert(text@ =~= old(text)@ + digits(number as nat));
        }
    }
}

/// Appends the decimal text of `number` to `text`.
fn append_decimal(text: &mut String, number: i64)
    ensures
        final(text)@ == old(text)@ + decimal_text(number as int),
{
    if number < 0 {
        proof {
            reveal_strlit("-");
        }
        let ghost before = text@;
        text.append("-");
        let magnitude: u64 = if number == i64::MIN {
            0x8000_0000_0000_0000
        } else {
            (-number) as u64
        };
        append_digits(text, magnitude);
        proof {
            assert(text@ =~= before + (seq!['-'] + digits((-number) as nat)));
        }
    } else {
        append_digits(text, number as u64);
    }
}

/// The path of the working directory of the process `pid`:
/// `/proc/<pid>/cwd`.
pub fn cwd_path(pid: u32) -> (path: String)
    ensures
        path@ == cwd_path_of(pid),
{
    let mut path = String::from_str("/proc/");
    append_decimal(&mut path, pid as i64);
    path.append("/cwd");
    path
}

/// The path of the memory of the process `pid`: `/proc/<pid>/mem`.
pub fn mem_path(pid: i32) -> (path: String)
    ensures
        path@ == mem_path_of(pid),
{
    let mut path = String::from_str("/proc/");
    append_decimal(&mut path, pid as i64);
    path.append("/mem");
    path
}

/// The path of the file descriptor `fd` of the process `pid`:
/// `/proc/<pid>/fd/<fd>`.
pub fn fd_path(pid: i32, fd: i32) -> (path: String)
    ensures
        path@ == fd_path_of(pid, fd),
{
    let mut path = String::from_str("/proc/");
    append_decimal(&mut path, pid as i64);
    path.append("/fd/");
    append_decimal(&mut path, fd as i64);
    path
}

} // verus!
