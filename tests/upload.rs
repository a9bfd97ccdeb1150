use std::path::PathBuf;
use zulu::upload::{
    extension, upload_directive, UploadCommand, UploadFileCommand, UploadLocation,
    UploadSslCommand,
};
use zulu::AsZpl;

fn directive(loc: &str, dest: &str, ext: &str, data: &[u8]) -> Vec<u8> {
    let mut v = format!("~DY{}:{},B,{},{},,", loc, dest, ext, data.len()).into_bytes();
    v.extend_from_slice(data);
    v.extend_from_slice(b"\r\n");
    v
}

#[test]
fn extension_without_dot_is_empty() {
    assert_eq!(extension("FIRMWARE"), "");
}

#[test]
fn extension_after_dot() {
    assert_eq!(extension("HTTPS_CA.NRD"), "NRD");
}

#[test]
fn extension_uses_last_dot() {
    assert_eq!(extension("a.b.TTF"), "TTF");
    assert_eq!(extension("name."), "");
    assert_eq!(extension(".hidden"), "hidden");
    assert_eq!(extension(""), "");
    assert_eq!(extension("\u{e9}t\u{e9}.\u{e9}x"), "\u{e9}x");
}

#[test]
fn location_codes() {
    assert_eq!(UploadLocation::R.code(), "R");
    assert_eq!(UploadLocation::E.code(), "E");
    assert_eq!(UploadLocation::B.code(), "B");
}

#[test]
fn directive_exact_bytes() {
    let r = upload_directive(UploadLocation::E, &[1, 2, 3], "HTTPS_CA.NRD");
    let mut expected = b"~DYE:HTTPS_CA.NRD,B,NRD,3,,".to_vec();
    expected.extend_from_slice(&[1, 2, 3]);
    expected.extend_from_slice(b"\r\n");
    assert_eq!(r, expected);
}

#[test]
fn directive_without_dot_has_empty_extension_field() {
    let r = upload_directive(UploadLocation::R, b"xy", "FIRMWARE");
    assert_eq!(r, b"~DYR:FIRMWARE,B,,2,,xy\r\n".to_vec());
}

#[test]
fn directive_with_empty_payload() {
    let r = upload_directive(UploadLocation::B, &[], "A.B");
    assert_eq!(r, b"~DYB:A.B,B,B,0,,\r\n".to_vec());
}

#[test]
fn directive_length_is_header_payload_and_terminator() {
    let data: Vec<u8> = (0..2000u32).map(|i| (i % 251) as u8).collect();
    let r = upload_directive(UploadLocation::E, &data, "BIG.BIN");
    let header = b"~DYE:BIG.BIN,B,BIN,2000,,";
    assert_eq!(r.len(), header.len() + data.len() + 2);
    assert_eq!(&r[..header.len()], &header[..]);
    assert_eq!(&r[header.len()..header.len() + data.len()], &data[..]);
    assert_eq!(&r[r.len() - 2..], b"\r\n");
}

#[test]
fn payload_is_copied_verbatim() {
    let data = vec![0u8, 13, 10, 34, 255, 44];
    let r = upload_directive(UploadLocation::E, &data, "X.DAT");
    assert_eq!(r, directive("E", "X.DAT", "DAT", &data));
}

#[test]
fn file_command_as_zpl() {
    let c = UploadFileCommand::new(UploadLocation::R, PathBuf::from("fw.bin"), "FW.ZPL".to_string());
    assert_eq!(c.loc, UploadLocation::R);
    assert_eq!(c.file, PathBuf::from("fw.bin"));
    let r = c.as_zpl(&vec![b"abc".to_vec()]);
    assert_eq!(r, directive("R", "FW.ZPL", "ZPL", b"abc"));
}

fn ssl(reset: bool) -> UploadSslCommand {
    UploadSslCommand {
        ca: PathBuf::from("ca.pem"),
        cert: PathBuf::from("cert.pem"),
        key: PathBuf::from("key.pem"),
        port: 443,
        reset,
    }
}

#[test]
fn ssl_bundle_concatenates_three_directives() {
    let r = ssl(true).as_zpl(&vec![b"A".to_vec(), b"BB".to_vec(), b"CCC".to_vec()]);
    let mut expected = directive("E", "HTTPS_CA.NRD", "NRD", b"A");
    expected.extend(directive("E", "HTTPS_CERT.NRD", "NRD", b"BB"));
    expected.extend(directive("E", "HTTPS_KEY.NRD", "NRD", b"CCC"));
    assert_eq!(r, expected);
}

#[test]
fn ssl_setup_with_reset() {
    let m = ssl(true).setup_messages(b"A", b"BB", b"CCC");
    assert_eq!(m.len(), 6);
    assert_eq!(m[0], directive("E", "HTTPS_CA.NRD", "NRD", b"A"));
    assert_eq!(m[1], directive("E", "HTTPS_CERT.NRD", "NRD", b"BB"));
    assert_eq!(m[2], directive("E", "HTTPS_KEY.NRD", "NRD", b"CCC"));
    assert_eq!(m[3], b"! U1 setvar \"ip.https.enable\" \"on\"\r\n".to_vec());
    assert_eq!(m[4], b"! U1 setvar \"ip.https.port\" \"443\"\r\n".to_vec());
    assert_eq!(m[5], b"! U1 do \"device.reset\" \"\"\r\n".to_vec());
}

#[test]
fn ssl_setup_without_reset() {
    let mut c = ssl(false);
    c.port = 8443;
    let m = c.setup_messages(b"", b"", b"");
    assert_eq!(m.len(), 5);
    assert_eq!(m[4], b"! U1 setvar \"ip.https.port\" \"8443\"\r\n".to_vec());
}

#[test]
fn upload_command_dispatch() {
    let f = UploadCommand::File(UploadFileCommand::new(
        UploadLocation::E,
        PathBuf::from("x"),
        "LOGO.PNG".to_string(),
    ));
    assert_eq!(f.as_zpl(&vec![b"png".to_vec()]), directive("E", "LOGO.PNG", "PNG", b"png"));
    let s = UploadCommand::Ssl(ssl(false));
    let contents = vec![b"1".to_vec(), b"2".to_vec(), b"3".to_vec()];
    assert_eq!(s.as_zpl(&contents), ssl(false).as_zpl(&contents));
}
