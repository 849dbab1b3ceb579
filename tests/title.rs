use cargo_skyline::error::Error;
use cargo_skyline::package::{exefs_from_entry, read_exefs, Exefs};
use cargo_skyline::title::{be_bytes_of, generate_npdm, le_bytes_of, parse_tid, restart_payload};
use std::io::Write;

fn template() -> Vec<u8> {
    (0..0x400u32).map(|i| (i % 251) as u8).collect()
}

#[test]
fn title_id_parses_as_hex() {
    assert_eq!(parse_tid("0100000000000000"), Some(0x0100000000000000));
    assert_eq!(parse_tid("01006A800016E000"), Some(0x01006A800016E000));
    assert_eq!(parse_tid("01006a800016e000"), Some(0x01006A800016E000));
    assert_eq!(parse_tid("ffffffffffffffff"), Some(u64::MAX));
    assert_eq!(parse_tid("+1f"), Some(0x1f));
}

#[test]
fn bad_title_ids_are_refused() {
    assert_eq!(parse_tid(""), None);
    assert_eq!(parse_tid("+"), None);
    assert_eq!(parse_tid("01g0"), None);
    assert_eq!(parse_tid("10000000000000000"), None);
    assert_eq!(parse_tid(" 01"), None);
}

#[test]
fn byte_orders() {
    assert_eq!(le_bytes_of(0x0102030405060708), vec![8, 7, 6, 5, 4, 3, 2, 1]);
    assert_eq!(be_bytes_of(0x0102030405060708), vec![1, 2, 3, 4, 5, 6, 7, 8]);
}

#[test]
fn npdm_patch_writes_little_endian_title_id() {
    let t = template();
    let out = generate_npdm(&t, "0100000000000000").unwrap();
    assert_eq!(out.len(), t.len());
    assert_eq!(&out[0x340..0x348], &0x0100000000000000u64.to_le_bytes()[..]);
    assert_eq!(u64::from_le_bytes(out[0x340..0x348].try_into().unwrap()), 0x0100000000000000);
    assert_eq!(&out[..0x340], &t[..0x340]);
    assert_eq!(&out[0x348..], &t[0x348..]);
}

#[test]
fn npdm_patch_on_minimal_template() {
    let t = vec![0xAAu8; 0x348];
    let out = generate_npdm(&t, "01006A800016E000").unwrap();
    assert_eq!(&out[0x340..], &[0x00, 0xE0, 0x16, 0x00, 0x80, 0x6A, 0x00, 0x01]);
    assert!(out[..0x340].iter().all(|b| *b == 0xAA));
}

#[test]
fn npdm_patch_refuses_bad_title_id() {
    assert_eq!(generate_npdm(&template(), "not hex"), Err(Error::BadTitleId));
}

#[test]
fn restart_signal_is_big_endian() {
    assert_eq!(restart_payload("01006A800016E000"), vec![0x01, 0x00, 0x6A, 0x80, 0x00, 0x16, 0xE0, 0x00]);
    assert_eq!(restart_payload("bogus"), vec![0; 8]);
}

fn archive(entries: &[(&str, &[u8])]) -> Vec<u8> {
    let mut w = zip::ZipWriter::new(std::io::Cursor::new(Vec::new()));
    for (name, data) in entries {
        w.start_file(*name, zip::write::FileOptions::default()).unwrap();
        w.write_all(data).unwrap();
    }
    w.finish().unwrap().into_inner()
}

#[test]
fn runtime_module_is_taken_from_archive() {
    let zip = archive(&[("exefs/main", b"main"), ("exefs/subsdk9", b"the runtime module")]);
    assert_eq!(read_exefs(&zip), Ok(Exefs { subsdk1: b"the runtime module".to_vec() }));
}

#[test]
fn archive_without_runtime_fails() {
    let zip = archive(&[("exefs/main", b"main")]);
    assert_eq!(read_exefs(&zip), Err(Error::ZipError));
    assert_eq!(read_exefs(b"not a zip archive"), Err(Error::ZipError));
    assert_eq!(exefs_from_entry(None), Err(Error::ZipError));
    assert_eq!(exefs_from_entry(Some(vec![1])), Ok(Exefs { subsdk1: vec![1] }));
}

/// An archive whose runtime entry carries an AES extra field although its
/// encryption flag is clear.
fn archive_with_aes_field() -> Vec<u8> {
    let mut w = zip::ZipWriter::new(std::io::Cursor::new(Vec::new()));
    let options = zip::write::FileOptions::default().compression_method(zip::CompressionMethod::Stored);
    w.start_file_with_extra_data("exefs/subsdk9", options).unwrap();
    w.write_all(&[0xef, 0xbe, 0x07, 0x00, 0x02, 0x00, 0x41, 0x45, 0x03, 0x00, 0x00]).unwrap();
    w.end_extra_data().unwrap();
    w.write_all(b"the runtime module").unwrap();
    let mut bytes = w.finish().unwrap().into_inner();
    let mut patched = 0;
    for i in 0..bytes.len() - 4 {
        if bytes[i..i + 4] == [0xef, 0xbe, 0x07, 0x00] {
            bytes[i] = 0x01;
            bytes[i + 1] = 0x99;
            patched += 1;
        }
    }
    assert_eq!(patched, 2);
    bytes
}

#[test]
fn entry_with_stray_aes_field_is_refused_without_panic() {
    assert_eq!(read_exefs(&archive_with_aes_field()), Err(Error::ZipError));
}
