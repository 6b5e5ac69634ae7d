//! The texts that the supervisor hands to the outside: decimal numbers,
//! addresses and paths.

use vstd::prelude::*;
use crate::service::Service;

verus! {

/// The character of the decimal digit `d`.
pub open spec fn digit(d: int) -> char {
    if d == 0 {
        '0'
    } else if d == 1 {
        '1'
    } else if d == 2 {
        '2'
    } else if d == 3 {
        '3'
    } else if d == 4 {
        '4'
    } else if d == 5 {
        '5'
    } else if d == 6 {
        '6'
    } else if d == 7 {
        '7'
    } else if d == 8 {
        '8'
    } else {
        '9'
    }
}

/// `n` in decimal notation: no sign, no leading zero but for zero itself.
pub open spec fn decimal(n: nat) -> Seq<char>
    decreases n,
{
    if n < 10 {
        seq![digit(n as int)]
    } else {
        decimal(n / 10).push(digit((n % 10) as int))
    }
}

/// The base address of a service that listens on `port` of this machine.
pub open spec fn upstream_url_of(port: u16) -> Seq<char> {
    "http://127.0.0.1:"@ + decimal(port as nat)
}

/// The address on which a service is to listen for `port` of this machine.
pub open spec fn bind_address_of(port: u16) -> Seq<char> {
    "127.0.0.1:"@ + decimal(port as nat)
}

/// The path of the health endpoint of `service`.
pub open spec fn health_path_of(service: Service) -> Seq<char> {
    match service {
        Service::Model => "/api/version"@,
        Service::Api => "/health"@,
    }
}

/// The address of the health endpoint of `service` on `port`.
pub open spec fn health_url_of(service: Service, port: u16) -> Seq<char> {
    upstream_url_of(port) + health_path_of(service)
}

/// The models directory below the home directory `home`.
pub open spec fn models_dir_of(home: Seq<char>) -> Seq<char> {
    home + "/.ollama/models"@
}

fn digit_text(d: u16) -> (text: &'static str)
    requires
        d < 10,
    ensures
        text@ == seq![digit(d as int)],
{
    proof {
        reveal_strlit("0");
        reveal_strlit("1");
        reveal_strlit("2");
        reveal_strlit("3");
        reveal_strlit("4");
        reveal_strlit("5");
        reveal_strlit("6");
        reveal_strlit("7");
        reveal_strlit("8");
        reveal_strlit("9");
    }
    let text = if d == 0 {
        "0"
    } else if d == 1 {
        "1"
    } else if d == 2 {
        "2"
    } else if d == 3 {
        "3"
    } else if d == 4 {
        "4"
    } else if d == 5 {
        "5"
    } else if d == 6 {
        "6"
    } else if d == 7 {
        "7"
    } else if d == 8 {
        "8"
    } else {
        "9"
    };
    assert(text@ =~= seq![digit(d as int)]);
    text
}

/// Writes `n` in decimal notation.
pub fn decimal_text(n: u16) -> (text: String)
    ensures
        text@ == decimal(n as nat),
    decreases n,
{
    if n < 10 {
        String::from_str(digit_text(n))
    } else {
        let mut text = decimal_text(n / 10);
        text.append(digit_text(n % 10));
        assert(text@ =~= decimal(n as nat));
        text
    }
}

/// The base address under which the API service reaches a model service
/// that listens on `port`.
pub fn upstream_url(port: u16) -> (url: String)
    ensures
        url@ == upstream_url_of(port),
{
    let mut url = String::from_str("http://127.0.0.1:");
    let number = decimal_text(port);
    url.append(number.as_str());
    url
}

/// The address on which the model service is told to listen.
pub fn bind_address(port: u16) -> (address: String)
    ensures
        address@ == bind_address_of(port),
{
    let mut address = String::from_str("127.0.0.1:");
    let number = decimal_text(port);
    address.append(number.as_str());
    address
}

/// The address that a health check of `service` on `port` is sent to.
pub fn health_url(service: Service, port: u16) -> (url: String)
    ensures
        url@ == health_url_of(service, port),
{
    let mut url = upstream_url(port);
    match service {
        Service::Model => url.append("/api/version"),
        Service::Api => url.append("/health"),
    }
    url
}

/// The directory in which the model service keeps its models, below the
/// user's home directory.
pub fn models_dir(home: &str) -> (dir: String)
    ensures
        dir@ == models_dir_of(home@),
{
    let mut dir = String::from_str(home);
    dir.append("/.ollama/models");
    dir
}

} // verus!
