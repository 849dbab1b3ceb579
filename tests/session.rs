use cargo_skyline::error::FtpError;
use cargo_skyline::passive::PassiveAddress;
use cargo_skyline::reply::parse_response;
use cargo_skyline::session::{Action, Connection, Event, Exchange, Outcome};

fn reply(line: &str) -> Event {
    Event::Reply(parse_response(line).unwrap())
}

#[test]
fn put_against_simulated_server() {
    let mut greeting = Exchange::connect();
    assert_eq!(greeting.step(Event::Done), Action::ReadReply);
    assert_eq!(greeting.step(reply("220 ready")), Action::Finish(Ok(Outcome::Done)));

    let mut login = Exchange::login("anonymous".to_string(), "anonymous".to_string());
    assert_eq!(login.step(Event::Done), Action::Request("USER anonymous\n".to_string()));
    assert_eq!(login.step(reply("230 logged in")), Action::Request("PASS anonymous\n".to_string()));
    assert_eq!(login.step(reply("230 logged in")), Action::Finish(Ok(Outcome::Done)));

    let mut put = Exchange::put("plugins/test.nro".to_string(), vec![0x00, 0x01]);
    assert_eq!(put.step(Event::Done), Action::Drain);
    assert_eq!(put.step(Event::Done), Action::Notify("DELE plugins/test.nro\n".to_string()));
    assert_eq!(put.step(Event::Done), Action::Request("TYPE I\n".to_string()));
    assert_eq!(put.step(reply("200 binary")), Action::Drain);
    assert_eq!(put.step(Event::Done), Action::Request("PASV\n".to_string()));
    let open = put.step(reply("227 Entering Passive Mode (127,0,0,1,19,136)"));
    assert_eq!(open, Action::OpenData(PassiveAddress { host: vec![127, 0, 0, 1], port: 5000 }));
    if let Action::OpenData(a) = open {
        assert_eq!(a.port, 5000);
    }
    assert_eq!(
        put.step(Event::Done),
        Action::Store("STOR plugins/test.nro\n".to_string(), vec![0x00, 0x01])
    );
    assert_eq!(put.step(Event::Done), Action::ReadReply);
    assert_eq!(put.step(reply("226 Transfer complete")), Action::Finish(Ok(Outcome::Done)));
    assert!(put.is_finished());
}

#[test]
fn put_waits_past_preliminary_reply() {
    let mut put = Exchange::put("/x.nro".to_string(), vec![7]);
    put.step(Event::Done);
    put.step(Event::Done);
    put.step(Event::Done);
    put.step(reply("200 ok"));
    put.step(Event::Done);
    put.step(reply("227 (10,0,0,1,0,80)"));
    put.step(Event::Done);
    assert_eq!(put.step(Event::Done), Action::ReadReply);
    assert_eq!(put.step(reply("150 opening")), Action::ReadReply);
    assert_eq!(put.step(reply("550 denied")), Action::Finish(Err(FtpError::UnexpectedStatus(550))));
}

#[test]
fn put_fails_when_binary_mode_is_refused() {
    let mut put = Exchange::put("/x.nro".to_string(), vec![]);
    put.step(Event::Done);
    put.step(Event::Done);
    put.step(Event::Done);
    assert_eq!(put.step(reply("504 no")), Action::Finish(Err(FtpError::UnexpectedStatus(504))));
}

fn probe_after_list(list_reply: &str) -> Exchange {
    let mut ex = Exchange::file_exists("/atmosphere/contents/x/exefs/subsdk9".to_string());
    assert_eq!(ex.step(Event::Done), Action::Drain);
    assert_eq!(ex.step(Event::Done), Action::Request("PASV\n".to_string()));
    assert_eq!(ex.step(reply("200 chatter")), Action::ReadReply);
    assert!(matches!(ex.step(reply("227 (127,0,0,1,19,136)")), Action::OpenData(_)));
    assert_eq!(
        ex.step(Event::Done),
        Action::Request("LIST /atmosphere/contents/x/exefs/subsdk9\n".to_string())
    );
    let next = ex.step(reply(list_reply));
    if next != Action::SkipLine {
        assert_eq!(next, Action::Finish(Ok(Outcome::Exists(false))));
    }
    ex
}

#[test]
fn exists_is_false_on_empty_listing() {
    let mut ex = probe_after_list("150 here it comes");
    assert_eq!(ex.step(Event::Done), Action::ReadProbe);
    assert_eq!(ex.step(Event::Count(0)), Action::Finish(Ok(Outcome::Exists(false))));
}

#[test]
fn exists_is_false_on_one_byte() {
    let mut ex = probe_after_list("150 here it comes");
    ex.step(Event::Done);
    assert_eq!(ex.step(Event::Count(1)), Action::Finish(Ok(Outcome::Exists(false))));
}

#[test]
fn exists_is_true_on_two_bytes() {
    let mut ex = probe_after_list("150 here it comes");
    ex.step(Event::Done);
    assert_eq!(ex.step(Event::Count(2)), Action::Finish(Ok(Outcome::Exists(true))));
}

#[test]
fn exists_is_false_when_list_fails() {
    let ex = probe_after_list("550 no such file");
    assert!(ex.is_finished());
}

#[test]
fn mkdir_is_judged_by_its_reply() {
    let mut ok = Exchange::mkdir("/a".to_string());
    assert_eq!(ok.step(Event::Done), Action::Request("MKD /a\n".to_string()));
    assert_eq!(ok.step(reply("257 created")), Action::Finish(Ok(Outcome::Done)));
    let mut bad = Exchange::mkdir("/a".to_string());
    bad.step(Event::Done);
    assert_eq!(bad.step(reply("550 exists")), Action::Finish(Err(FtpError::UnexpectedStatus(550))));
}

#[test]
fn delete_is_best_effort() {
    let mut rm = Exchange::rm("/a.nro".to_string());
    assert_eq!(rm.step(Event::Done), Action::Request("DELE /a.nro\n".to_string()));
    assert_eq!(rm.step(reply("550 missing")), Action::Finish(Ok(Outcome::Done)));
}

#[test]
fn login_fails_fast() {
    let mut login = Exchange::login("u".to_string(), "p".to_string());
    login.step(Event::Done);
    assert_eq!(login.step(reply("530 no")), Action::Finish(Err(FtpError::UnexpectedStatus(530))));
}

#[test]
fn bad_greeting_is_refused() {
    let mut c = Exchange::connect();
    c.step(Event::Done);
    assert_eq!(c.step(reply("421 busy")), Action::Finish(Err(FtpError::UnexpectedStatus(421))));
}

#[test]
fn listing_changes_directory_first() {
    let mut ls = Exchange::ls(Some("/atmosphere".to_string()));
    ls.step(Event::Done);
    ls.step(Event::Done);
    ls.step(reply("227 (1,2,3,4,0,21)"));
    assert_eq!(ls.step(Event::Done), Action::Request("CWD /atmosphere\n".to_string()));
    assert_eq!(ls.step(reply("250 ok")), Action::Send("LIST\n".to_string()));
    assert_eq!(ls.step(Event::Done), Action::ReadAll);
    assert_eq!(
        ls.step(Event::Text("contents\n".to_string())),
        Action::Finish(Ok(Outcome::Listing("contents\n".to_string())))
    );
}

#[test]
fn listing_fails_on_bad_directory() {
    let mut ls = Exchange::ls(Some("/nowhere".to_string()));
    ls.step(Event::Done);
    ls.step(Event::Done);
    ls.step(reply("227 (1,2,3,4,0,21)"));
    ls.step(Event::Done);
    assert_eq!(ls.step(reply("550 no")), Action::Finish(Err(FtpError::UnexpectedStatus(550))));
}

#[test]
fn events_out_of_order_end_the_exchange() {
    let mut put = Exchange::put("/x".to_string(), vec![]);
    put.step(Event::Done);
    assert_eq!(put.step(Event::Count(3)), Action::Finish(Err(FtpError::OutOfSequence)));
    assert_eq!(put.step(Event::Done), Action::Finish(Err(FtpError::OutOfSequence)));
}

#[test]
fn malformed_path_never_reaches_the_wire() {
    let mut mk = Exchange::mkdir("a\r\nDELE b".to_string());
    assert_eq!(mk.step(Event::Done), Action::Finish(Err(FtpError::InvalidArgument)));
}

#[test]
fn connection_notes_accepted_directory_changes() {
    let mut conn = Connection::new();
    let mut cd = Exchange::change_dir("/atmosphere".to_string());
    cd.step(Event::Done);
    cd.step(reply("250 ok"));
    conn.record(&cd);
    let mut refused = Exchange::change_dir("/nowhere".to_string());
    refused.step(Event::Done);
    refused.step(reply("550 no"));
    conn.record(&refused);
    let mut ls = Exchange::ls(Some("contents".to_string()));
    ls.step(Event::Done);
    ls.step(Event::Done);
    ls.step(reply("227 (1,2,3,4,0,21)"));
    ls.step(Event::Done);
    ls.step(reply("250 ok"));
    conn.record(&ls);
    let mut mk = Exchange::mkdir("/x".to_string());
    mk.step(Event::Done);
    mk.step(reply("257 ok"));
    conn.record(&mk);
    assert_eq!(conn.entered, vec!["/atmosphere".to_string(), "contents".to_string()]);
}
