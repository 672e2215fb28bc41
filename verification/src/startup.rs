//! What every service decides when it starts: where its settings come
//! from, what it says when there are none, and the address it listens on.

use vstd::prelude::*;

verus! {

/// The character that writes a number below ten.
pub open spec fn decimal_digit(n: nat) -> char {
    (0x30 + n) as char
}

/// A number written in base ten, without leading zeros.
pub open spec fn decimal(n: nat) -> Seq<char>
    decreases n,
{
    if n < 10 {
        seq![decimal_digit(n)]
    } else {
        decimal(n / 10).push(decimal_digit(n % 10))
    }
}

/// The address that a service on `port` listens on: every interface.
pub open spec fn spec_listen_address(port: u16) -> Seq<char> {
    "0.0.0.0:"@ + decimal(port as nat)
}

/// What a service says when it finds no settings.
pub open spec fn spec_missing_config(service: Seq<char>) -> Seq<char> {
    "Failed to get config for "@ + service + " service"@
}

/// The text to read the settings from: the environment's where it has one,
/// else the file's, else none.
pub fn config_text(env: Option<String>, file: Option<String>) -> (r: Option<String>)
    ensures
        r == if env is Some {
            env
        } else {
            file
        },
{
    match env {
        Some(text) => Some(text),
        None => file,
    }
}

/// What the service named `service` says when it finds no settings.
pub fn missing_config(service: &str) -> (r: String)
    ensures
        r@ == spec_missing_config(service@),
{
    let mut message = String::from_str("Failed to get config for ");
    message.append(service);
    message.append(" service");
    message
}

/// The text of a number below ten.
fn digit_text(n: u16) -> (r: &'static str)
    requires
        n < 10,
    ensures
        r@ == seq![decimal_digit(n as nat)],
{
    proof {
        reveal_strlit("0");
        reveal_strlit("1");
        reveal_strlit("2");
        reveal_strlit("3");
        reveal_strlit("4");
        reveal_strlit("5");
        reveal_strlit("6");
        reveal_strlit("7");
        reveal_strlit("8");
        reveal_strlit("9");
    }
    let r = if n == 0 {
        "0"
    } else if n == 1 {
        "1"
    } else if n == 2 {
        "2"
    } else if n == 3 {
        "3"
    } else if n == 4 {
        "4"
    } else if n == 5 {
        "5"
    } else if n == 6 {
        "6"
    } else if n == 7 {
        "7"
    } else if n == 8 {
        "8"
    } else {
        "9"
    };
    assert(r@ =~= seq![decimal_digit(n as nat)]);
    r
}

/// Writes `n` in base ten at the end of `text`.
fn append_decimal(text: &mut String, n: u16)
    ensures
        final(text)@ == old(text)@ + decimal(n as nat),
    decreases n,
{
    if n >= 10 {
        append_decimal(text, n / 10);
    }
    text.append(digit_text(n % 10));
    assert(text@ =~= old(text)@ + decimal(n as nat));
}

/// The address that a service on `port` listens on.
pub fn listen_address(port: u16) -> (r: String)
    ensures
        r@ == spec_listen_address(port),
{
    let mut address = String::from_str("0.0.0.0:");
    append_decimal(&mut address, port);
    address
}

} // verus!
