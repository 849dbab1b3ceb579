//! The commands of the control channel and their encoding as text lines.
use vstd::prelude::*;
use vstd::string::*;
use crate::error::FtpError;

verus! {

/// The commands this client issues.
#[derive(Debug, Clone, PartialEq, Eq)]
pub enum Command {
    User(String),
    Pass(String),
    Pasv,
    Mkd(String),
    Cwd(String),
    List(Option<String>),
    Dele(String),
    /// `TYPE I`: binary transfers.
    TypeImage,
    Stor(String),
}

pub open spec fn has_line_break(s: Seq<char>) -> bool {
    exists|i: int| 0 <= i < s.len() && (s[i] == '\n' || s[i] == '\r')
}

/// The command's word, as sent.
pub open spec fn verb(c: Command) -> Seq<char> {
    match c {
        Command::User(_) => "USER"@,
        Command::Pass(_) => "PASS"@,
        Command::Pasv => "PASV"@,
        Command::Mkd(_) => "MKD"@,
        Command::Cwd(_) => "CWD"@,
        Command::List(_) => "LIST"@,
        Command::Dele(_) => "DELE"@,
        Command::TypeImage => "TYPE"@,
        Command::Stor(_) => "STOR"@,
    }
}

/// The command's argument, if it has one.
pub open spec fn argument(c: Command) -> Option<Seq<char>> {
    match c {
        Command::User(a) => Some(a@),
        Command::Pass(a) => Some(a@),
        Command::Pasv => None,
        Command::Mkd(a) => Some(a@),
        Command::Cwd(a) => Some(a@),
        Command::List(a) => match a {
            Some(p) => Some(p@),
            None => None,
        },
        Command::Dele(a) => Some(a@),
        Command::TypeImage => Some("I"@),
        Command::Stor(a) => Some(a@),
    }
}

/// `VERB\n`, or `VERB ARG\n`.
pub open spec fn command_line(c: Command) -> Seq<char> {
    match argument(c) {
        Some(a) => verb(c) + " "@ + a + "\n"@,
        None => verb(c) + "\n"@,
    }
}

/// An argument may go on the wire when it cannot end the command line early.
pub open spec fn encodable(c: Command) -> bool {
    match argument(c) {
        Some(a) => !has_line_break(a),
        None => true,
    }
}

pub fn contains_line_break(s: &str) -> (r: bool)
    ensures
        r == has_line_break(s@),
{
    let n = s.unicode_len();
    let mut i: usize = 0;
    while i < n
        invariant
            n == s@.len(),
            i <= n,
            forall|k: int| 0 <= k < i ==> s@[k] != '\n' && s@[k] != '\r',
        decreases n - i,
    {
        let c = s.get_char(i);
        if c == '\n' || c == '\r' {
            return true;
        }
        i = i + 1;
    }
    false
}

fn line_with_argument(word: &str, arg: &str) -> (r: Result<String, FtpError>)
    ensures
        match r {
            Ok(line) => !has_line_break(arg@) && line@ == word@ + " "@ + arg@ + "\n"@,
            Err(e) => has_line_break(arg@) && e == FtpError::InvalidArgument,
        },
{
    if contains_line_break(arg) {
        return Err(FtpError::InvalidArgument);
    }
    let mut line = String::from_str(word);
    line.append(" ");
    line.append(arg);
    line.append("\n");
    Ok(line)
}

fn bare_line(word: &str) -> (r: String)
    ensures
        r@ == word@ + "\n"@,
{
    let mut line = String::from_str(word);
    line.append("\n");
    line
}

impl Command {
    /// The text line that carries this command, or `InvalidArgument` when its
    /// argument holds a line break.
    pub fn encode(&self) -> (r: Result<String, FtpError>)
        ensures
            match r {
                Ok(line) => encodable(*self) && line@ == command_line(*self),
                Err(e) => !encodable(*self) && e == FtpError::InvalidArgument,
            },
    {
        match self {
            Command::User(a) => line_with_argument("USER", a.as_str()),
            Command::Pass(a) => line_with_argument("PASS", a.as_str()),
            Command::Pasv => Ok(bare_line("PASV")),
            Command::Mkd(a) => line_with_argument("MKD", a.as_str()),
            Command::Cwd(a) => line_with_argument("CWD", a.as_str()),
            Command::List(a) => match a {
                Some(p) => line_with_argument("LIST", p.as_str()),
                None => Ok(bare_line("LIST")),
            },
            Command::Dele(a) => line_with_argument("DELE", a.as_str()),
            Command::TypeImage => line_with_argument("TYPE", "I"),
            Command::Stor(a) => line_with_argument("STOR", a.as_str()),
        }
    }
}

} // verus!
