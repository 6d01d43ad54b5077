use vstd::prelude::*;
use crate::event::SystrayError;

verus! {

/// The character of a decimal digit.
pub open spec fn digit_char(d: nat) -> char {
    (48 + d) as char
}

/// The decimal digits of `n`, most significant first, without leading zeros.
pub open spec fn decimal(n: nat) -> Seq<char>
    decreases n,
{
    if n < 10 {
        seq![digit_char(n)]
    } else {
        decimal(n / 10).push(digit_char(n % 10))
    }
}

/// The number that a sequence of decimal digits denotes.
pub open spec fn parse_decimal(s: Seq<char>) -> nat
    decreases s.len(),
{
    if s.len() == 0 {
        0
    } else {
        parse_decimal(s.drop_last()) * 10 + ((s.last() as u32) - 48) as nat
    }
}

/// The text of an OS error: the failed operation, a colon, a space and the
/// decimal error code.
pub open spec fn os_error_text(msg: Seq<char>, code: u32) -> Seq<char> {
    msg + seq![':', ' '] + decimal(code as nat)
}

/// `String::push`: appends one character.
#[verifier::external_body]
fn push_char(s: &mut String, c: char)
    ensures
        final(s)@ == old(s)@.push(c),
{
    s.push(c);
}

/// The character of the decimal digit `d`.
fn digit(d: u32) -> (c: char)
    requires
        d < 10,
    ensures
        c == digit_char(d as nat),
{
    match d {
        0 => '0',
        1 => '1',
        2 => '2',
        3 => '3',
        4 => '4',
        5 => '5',
        6 => '6',
        7 => '7',
        8 => '8',
        _ => '9',
    }
}

/// Appends the decimal digits of `n` to `s`.
fn push_decimal(s: &mut String, n: u32)
    ensures
        final(s)@ == old(s)@ + decimal(n as nat),
    decreases n,
{
    if n >= 10 {
        push_decimal(s, n / 10);
    }
    push_char(s, digit(n % 10));
    proof {
        if n >= 10 {
            assert(decimal(n as nat) == decimal((n / 10) as nat).push(digit_char((n % 10) as nat)));
        }
    }
}

/// The error for a failed OS call: the operation named by `msg`, a colon,
/// a space and the code that `GetLastError` gave.
pub fn os_error(msg: &str, code: u32) -> (err: SystrayError)
    ensures
        err matches SystrayError::OsError(text) && text@ == os_error_text(msg@, code),
{
    broadcast use vstd::string::axiom_spec_iter;

    let mut text = String::new();
    for c in it: msg.chars()
        invariant
            it.seq() == msg@,
            text@ == msg@.take(it.index()),
    {
        proof {
            assert(msg@.take(it.index() + 1) =~= msg@.take(it.index()).push(c));
        }
        push_char(&mut text, c);
    }
    proof {
        assert(msg@.take(msg@.len() as int) =~= msg@);
    }
    push_char(&mut text, ':');
    push_char(&mut text, ' ');
    push_decimal(&mut text, code);
    proof {
        assert(text@ =~= os_error_text(msg@, code));
    }
    SystrayError::OsError(text)
}

/// The code in an OS error's text can be read back: the digits after the
/// operation's name and ": " denote the code exactly.
pub proof fn os_error_code_reads_back(msg: Seq<char>, code: u32)
    ensures
        os_error_text(msg, code).subrange(msg.len() as int + 2, os_error_text(msg, code).len() as int)
            == decimal(code as nat),
        parse_decimal(decimal(code as nat)) == code,
{
    assert(os_error_text(msg, code).subrange(msg.len() as int + 2, os_error_text(msg, code).len() as int)
        =~= decimal(code as nat));
    decimal_reads_back(code as nat);
}

/// Reading the decimal digits of `n` gives `n`.
pub proof fn decimal_reads_back(n: nat)
    ensures
        parse_decimal(decimal(n)) == n,
    decreases n,
{
    let d = n % 10;
    assert(digit_char(d) as u32 == 48 + d);
    if n < 10 {
        assert(decimal(n).drop_last() =~= Seq::<char>::empty());
        assert(parse_decimal(Seq::<char>::empty()) == 0);
        assert(decimal(n).last() == digit_char(d));
    } else {
        decimal_reads_back(n / 10);
        assert(decimal(n).drop_last() =~= decimal(n / 10));
        assert(decimal(n).last() == digit_char(d));
    }
}

} // verus!
