//! Control-channel replies: parsing a status line and classifying its code.
use vstd::prelude::*;
use vstd::string::*;
use crate::error::FtpError;
use crate::text::{is_dec_digit, digit_value, value_in};

verus! {

/// One reply of the control channel: a three-digit code and the text after it.
#[derive(Debug, Clone, PartialEq, Eq)]
pub struct Response {
    pub code: usize,
    pub text: String,
}

/// The line without its terminator (`"\n"` or `"\r\n"`).
pub open spec fn line_body(line: Seq<char>) -> Seq<char> {
    let a = if line.len() > 0 && line.last() == '\n' { line.drop_last() } else { line };
    if a.len() > 0 && a.last() == '\r' { a.drop_last() } else { a }
}

/// `<3 digits>` writing a code from 100 to 599, optionally followed by a
/// space (or `-` on a continued reply) and text.
pub open spec fn reply_well_formed(body: Seq<char>) -> bool {
    &&& body.len() >= 3
    &&& '1' <= body[0] <= '5'
    &&& is_dec_digit(body[1]) && is_dec_digit(body[2])
    &&& (body.len() == 3 || body[3] == ' ' || body[3] == '-')
}

pub open spec fn reply_code(body: Seq<char>) -> nat {
    100 * digit_value(body[0]) + 10 * digit_value(body[1]) + digit_value(body[2])
}

pub open spec fn reply_text(body: Seq<char>) -> Seq<char> {
    if body.len() <= 4 { Seq::empty() } else { body.subrange(4, body.len() as int) }
}

/// Codes that let an exchange proceed: any 2xx, and 150 (a data connection
/// is about to be opened).
pub open spec fn is_success(code: nat) -> bool {
    (200 <= code && code <= 299) || code == 150
}

/// A line made of a three-digit code from 100 to 599, a space and a text (with or without
/// a line terminator after it) is well formed; its code is the number the
/// digits write and its text is the text.
pub proof fn lemma_status_line(code: Seq<char>, text: Seq<char>, terminator: Seq<char>)
    requires
        code.len() == 3,
        '1' <= code[0] <= '5',
        forall|i: int| 0 <= i < 3 ==> is_dec_digit(#[trigger] code[i]),
        text.len() == 0 || (text.last() != '\n' && text.last() != '\r'),
        terminator == Seq::<char>::empty() || terminator == seq!['\n'] || terminator == seq!['\r', '\n'],
    ensures
        ({
            let body = line_body(code + seq![' '] + text + terminator);
            &&& reply_well_formed(body)
            &&& reply_code(body) == value_in(code, 10)
            &&& reply_text(body) == text
        }),
{
    let line = code + seq![' '] + text;
    let full = line + terminator;
    if terminator.len() == 1 {
        assert(full.drop_last() =~= line);
    } else if terminator.len() == 2 {
        assert(full.drop_last().drop_last() =~= line);
    } else {
        assert(full =~= line);
    }
    assert(line_body(full) == line);
    let c2 = code.drop_last();
    let c1 = c2.drop_last();
    assert(c1.drop_last() =~= Seq::<char>::empty());
    assert(c1.last() == code[0] && c2.last() == code[1] && code.last() == code[2]);
    assert(c1.len() == 1);
    assert(value_in(c1.drop_last(), 10) == 0);
    assert(value_in(c1, 10) == digit_value(code[0]));
    assert(value_in(c2, 10) == digit_value(code[0]) * 10 + digit_value(code[1]));
    assert(value_in(code, 10) == (digit_value(code[0]) * 10 + digit_value(code[1])) * 10 + digit_value(code[2]));
    assert(line.subrange(4, line.len() as int) =~= text);
}

/// Reads one status line (with or without its terminator) into a `Response`.
pub fn parse_response(line: &str) -> (r: Result<Response, FtpError>)
    ensures
        match r {
            Ok(resp) => {
                &&& reply_well_formed(line_body(line@))
                &&& resp.code as nat == reply_code(line_body(line@))
                &&& resp.text@ == reply_text(line_body(line@))
            },
            Err(e) => !reply_well_formed(line_body(line@)) && e == FtpError::ParseFail,
        },
{
    let n = line.unicode_len();
    let mut m = n;
    if m > 0 && line.get_char(m - 1) == '\n' {
        m = m - 1;
    }
    if m > 0 && line.get_char(m - 1) == '\r' {
        m = m - 1;
    }
    let ghost body = line_body(line@);
    assert(body =~= line@.subrange(0, m as int));
    if m < 3 {
        return Err(FtpError::ParseFail);
    }
    let c0 = line.get_char(0);
    let c1 = line.get_char(1);
    let c2 = line.get_char(2);
    if !('1' <= c0 && c0 <= '5' && '0' <= c1 && c1 <= '9' && '0' <= c2 && c2 <= '9') {
        return Err(FtpError::ParseFail);
    }
    if m > 3 {
        let sep = line.get_char(3);
        if sep != ' ' && sep != '-' {
            return Err(FtpError::ParseFail);
        }
    }
    let code = 100 * (c0 as u32 - '0' as u32) as usize + 10 * (c1 as u32 - '0' as u32) as usize
        + (c2 as u32 - '0' as u32) as usize;
    let text = if m <= 4 {
        String::new()
    } else {
        String::from_str(line.substring_char(4, m))
    };
    assert(text@ =~= reply_text(body));
    Ok(Response { code, text })
}

/// Accepts a reply code that lets the exchange go on; any other code is
/// reported back.
pub fn expect_success(code: usize) -> (r: Result<(), FtpError>)
    ensures
        r is Ok <==> is_success(code as nat),
        r is Err ==> r == Err::<(), FtpError>(FtpError::UnexpectedStatus(code)),
{
    if (200 <= code && code <= 299) || code == 150 {
        Ok(())
    } else {
        Err(FtpError::UnexpectedStatus(code))
    }
}

/// The server's greeting must carry code 220.
pub fn expect_greeting(code: usize) -> (r: Result<(), FtpError>)
    ensures
        r is Ok <==> code == 220,
        r is Err ==> r == Err::<(), FtpError>(FtpError::UnexpectedStatus(code)),
{
    if code == 220 {
        Ok(())
    } else {
        Err(FtpError::UnexpectedStatus(code))
    }
}

} // verus!
