//! Passive mode: decoding the address that a `227` reply advertises for the
//! data connection, and the decision taken on each reply to `PASV`.
use vstd::prelude::*;
use crate::error::FtpError;
use crate::reply::Response;
use crate::text::{split, split_ranges, dec_digits_of, dec_value_within, value_in};

verus! {

/// Where the server listens for the data connection.
#[derive(Debug, Clone, PartialEq, Eq)]
pub struct PassiveAddress {
    /// The four octets of the IPv4 host, most significant first.
    pub host: Vec<u8>,
    pub port: u16,
}

/// The comma-separated tokens of a `227` payload, each reduced to its digits.
pub open spec fn pasv_tokens(text: Seq<char>) -> Seq<Seq<char>> {
    split(text, ',').map_values(|t: Seq<char>| dec_digits_of(t))
}

pub open spec fn is_octet(digits: Seq<char>) -> bool {
    digits.len() > 0 && value_in(digits, 10) <= 255
}

/// At least six tokens, the first six each a number that fits in an octet.
pub open spec fn pasv_valid(text: Seq<char>) -> bool {
    let t = pasv_tokens(text);
    t.len() >= 6 && forall|i: int| 0 <= i < 6 ==> is_octet(#[trigger] t[i])
}

/// The value of the `i`-th token.
pub open spec fn pasv_number(text: Seq<char>, i: int) -> nat {
    value_in(pasv_tokens(text)[i], 10)
}

pub open spec fn pasv_host(text: Seq<char>) -> Seq<u8> {
    seq![
        pasv_number(text, 0) as u8,
        pasv_number(text, 1) as u8,
        pasv_number(text, 2) as u8,
        pasv_number(text, 3) as u8,
    ]
}

/// The high half of the port comes first.
pub open spec fn pasv_port(text: Seq<char>) -> nat {
    pasv_number(text, 4) * 256 + pasv_number(text, 5)
}

/// Decodes `h1,h2,h3,h4,p1,p2` (parenthesised or bare, with any non-digit
/// characters around the numbers) into the host `h1.h2.h3.h4` and the port
/// `p1 * 256 + p2`.
pub fn decode_pasv(text: &str) -> (r: Result<PassiveAddress, FtpError>)
    ensures
        match r {
            Ok(a) => {
                &&& pasv_valid(text@)
                &&& a.host@ == pasv_host(text@)
                &&& a.port as nat == pasv_port(text@)
            },
            Err(e) => !pasv_valid(text@) && e == FtpError::ParseFail,
        },
{
    let ranges = split_ranges(text, ',');
    let ghost toks = pasv_tokens(text@);
    if ranges.len() < 6 {
        return Err(FtpError::ParseFail);
    }
    let mut vals: Vec<u8> = Vec::new();
    let mut k: usize = 0;
    while k < 6
        invariant
            k <= 6,
            ranges@.len() >= 6,
            ranges@.len() == split(text@, ',').len(),
            toks == pasv_tokens(text@),
            forall|j: int|
                #![trigger ranges@[j]]
                0 <= j < ranges@.len() ==> {
                    &&& ranges@[j].0 <= ranges@[j].1 <= text@.len()
                    &&& text@.subrange(ranges@[j].0 as int, ranges@[j].1 as int) == split(text@, ',')[j]
                },
            vals@.len() == k,
            forall|j: int| 0 <= j < k ==> is_octet(#[trigger] toks[j]) && vals@[j] as nat == value_in(toks[j], 10),
        decreases 6 - k,
    {
        let (from, to) = ranges[k];
        assert(toks[k as int] == dec_digits_of(split(text@, ',')[k as int]));
        match dec_value_within(text, from, to, 255) {
            Some(v) => {
                vals.push(v as u8);
            },
            None => {
                assert(!is_octet(toks[k as int]));
                return Err(FtpError::ParseFail);
            },
        }
        k = k + 1;
    }
    let port: u16 = vals[4] as u16 * 256 + vals[5] as u16;
    let host = vec![vals[0], vals[1], vals[2], vals[3]];
    assert(host@ =~= pasv_host(text@));
    Ok(PassiveAddress { host, port })
}

/// What to do with one reply while waiting for the answer to `PASV`.
#[derive(Debug, Clone, PartialEq, Eq)]
pub enum PasvStep {
    /// The `227` reply arrived with a usable address.
    Ready(PassiveAddress),
    /// An informational 2xx line: read the next reply.
    Skip,
    /// The exchange failed.
    Failed(FtpError),
}

/// Some servers send other 2xx lines before the `227` reply: those are
/// skipped; a code outside 2xx ends the exchange.
pub fn pasv_step(resp: &Response) -> (r: PasvStep)
    ensures
        resp.code == 227 && pasv_valid(resp.text@) ==> match r {
            PasvStep::Ready(a) => a.host@ == pasv_host(resp.text@) && a.port as nat == pasv_port(
                resp.text@,
            ),
            _ => false,
        },
        resp.code == 227 && !pasv_valid(resp.text@) ==> r == PasvStep::Failed(FtpError::ParseFail),
        !(200 <= resp.code <= 299) ==> r == PasvStep::Failed(FtpError::UnexpectedStatus(resp.code)),
        200 <= resp.code <= 299 && resp.code != 227 ==> r == PasvStep::Skip,
{
    if resp.code == 227 {
        match decode_pasv(resp.text.as_str()) {
            Ok(a) => PasvStep::Ready(a),
            Err(e) => PasvStep::Failed(e),
        }
    } else if !(200 <= resp.code && resp.code <= 299) {
        PasvStep::Failed(FtpError::UnexpectedStatus(resp.code))
    } else {
        PasvStep::Skip
    }
}

} // verus!
