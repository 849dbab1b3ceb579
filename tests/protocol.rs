use cargo_skyline::command::Command;
use cargo_skyline::error::FtpError;
use cargo_skyline::passive::{decode_pasv, pasv_step, PassiveAddress, PasvStep};
use cargo_skyline::reply::{expect_greeting, expect_success, parse_response, Response};

fn reply(code: usize, text: &str) -> Response {
    Response { code, text: text.to_string() }
}

#[test]
fn pasv_payload_decodes_host_and_port() {
    let a = decode_pasv("Entering Passive Mode (127,0,0,1,19,136)").unwrap();
    assert_eq!(a.host, vec![127, 0, 0, 1]);
    assert_eq!(a.port, 19 * 256 + 136);
    assert_eq!(a.port, 5000);
}

#[test]
fn pasv_bare_payload_decodes() {
    let a = decode_pasv("192,168,1,20,4,1").unwrap();
    assert_eq!(a, PassiveAddress { host: vec![192, 168, 1, 20], port: 1025 });
}

#[test]
fn pasv_extra_tokens_are_ignored() {
    let a = decode_pasv("(10,0,0,2,0,21,99)").unwrap();
    assert_eq!(a.host, vec![10, 0, 0, 2]);
    assert_eq!(a.port, 21);
}

#[test]
fn pasv_fewer_than_six_tokens_fails() {
    assert_eq!(decode_pasv("(127,0,0,1,19)"), Err(FtpError::ParseFail));
    assert_eq!(decode_pasv(""), Err(FtpError::ParseFail));
    assert_eq!(decode_pasv("no address here"), Err(FtpError::ParseFail));
}

#[test]
fn pasv_empty_or_oversized_token_fails() {
    assert_eq!(decode_pasv("(127,,0,1,19,136)"), Err(FtpError::ParseFail));
    assert_eq!(decode_pasv("(127,0,0,1,256,136)"), Err(FtpError::ParseFail));
    assert_eq!(decode_pasv("(127,0,0,1,19,99999999999999999999999)"), Err(FtpError::ParseFail));
}

#[test]
fn pasv_step_skips_chatter_and_stops_on_failure() {
    assert_eq!(pasv_step(&reply(200, "hello")), PasvStep::Skip);
    assert_eq!(pasv_step(&reply(425, "no")), PasvStep::Failed(FtpError::UnexpectedStatus(425)));
    assert_eq!(pasv_step(&reply(150, "")), PasvStep::Failed(FtpError::UnexpectedStatus(150)));
    assert_eq!(pasv_step(&reply(227, "(1,2,3)")), PasvStep::Failed(FtpError::ParseFail));
    assert_eq!(
        pasv_step(&reply(227, "Entering Passive Mode (127,0,0,1,19,136)")),
        PasvStep::Ready(PassiveAddress { host: vec![127, 0, 0, 1], port: 5000 })
    );
}

#[test]
fn response_line_parses_code_and_text() {
    assert_eq!(parse_response("200 OK"), Ok(reply(200, "OK")));
    assert_eq!(parse_response("200 OK\r\n"), Ok(reply(200, "OK")));
    assert_eq!(parse_response("226 Transfer complete\n"), Ok(reply(226, "Transfer complete")));
    assert_eq!(parse_response("220-Welcome"), Ok(reply(220, "Welcome")));
    assert_eq!(parse_response("250\r\n"), Ok(reply(250, "")));
    assert_eq!(parse_response("599 x"), Ok(reply(599, "x")));
    assert_eq!(parse_response("100 x"), Ok(reply(100, "x")));
}

#[test]
fn response_line_with_bad_prefix_fails() {
    assert_eq!(parse_response("OK 200"), Err(FtpError::ParseFail));
    assert_eq!(parse_response("2x0 OK"), Err(FtpError::ParseFail));
    assert_eq!(parse_response("20"), Err(FtpError::ParseFail));
    assert_eq!(parse_response(""), Err(FtpError::ParseFail));
    assert_eq!(parse_response("2000 OK"), Err(FtpError::ParseFail));
    assert_eq!(parse_response("000 zero"), Err(FtpError::ParseFail));
    assert_eq!(parse_response("600 high"), Err(FtpError::ParseFail));
}

#[test]
fn success_codes_are_accepted() {
    for code in [200, 226, 230, 150, 250, 299] {
        assert_eq!(expect_success(code), Ok(()));
    }
}

#[test]
fn failure_codes_are_rejected() {
    for code in [530, 421, 110, 199, 300, 550, 125] {
        assert_eq!(expect_success(code), Err(FtpError::UnexpectedStatus(code)));
    }
}

#[test]
fn greeting_must_be_220() {
    assert_eq!(expect_greeting(220), Ok(()));
    assert_eq!(expect_greeting(421), Err(FtpError::UnexpectedStatus(421)));
}

#[test]
fn commands_encode_as_lines() {
    assert_eq!(Command::User("anonymous".to_string()).encode(), Ok("USER anonymous\n".to_string()));
    assert_eq!(Command::Pass("anonymous".to_string()).encode(), Ok("PASS anonymous\n".to_string()));
    assert_eq!(Command::Pasv.encode(), Ok("PASV\n".to_string()));
    assert_eq!(Command::Mkd("/a b".to_string()).encode(), Ok("MKD /a b\n".to_string()));
    assert_eq!(Command::Cwd("/x".to_string()).encode(), Ok("CWD /x\n".to_string()));
    assert_eq!(Command::List(None).encode(), Ok("LIST\n".to_string()));
    assert_eq!(Command::List(Some("/p".to_string())).encode(), Ok("LIST /p\n".to_string()));
    assert_eq!(Command::Dele("/f".to_string()).encode(), Ok("DELE /f\n".to_string()));
    assert_eq!(Command::TypeImage.encode(), Ok("TYPE I\n".to_string()));
    assert_eq!(Command::Stor("/f.nro".to_string()).encode(), Ok("STOR /f.nro\n".to_string()));
}

#[test]
fn command_argument_with_line_break_is_refused() {
    assert_eq!(Command::Mkd("a\nDELE b".to_string()).encode(), Err(FtpError::InvalidArgument));
    assert_eq!(Command::Stor("a\r".to_string()).encode(), Err(FtpError::InvalidArgument));
}
