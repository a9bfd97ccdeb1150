//! The `~DY` object-upload codec.
//!
//! A directive is `~DY<location>:<name>,B,<extension>,<size>,,` followed by
//! the raw payload and CR LF. The payload format is always raw binary (`B`),
//! and the trailing row-bytes field, meaningful only for images, is empty.
use vstd::prelude::*;
use vstd::utf8::{encode_utf8, is_ascii_chars, is_ascii_chars_encode_utf8};

use std::path::PathBuf;

use crate::sdg::{do_text, setvar_number, setvar_text, SdgDo, SdgSet};
use crate::text::{
    append_bytes, append_decimal, append_str, byte_views, decimal, decimal_value,
    lemma_decimal_value, lemma_encode_utf8_concat,
};
use crate::{AsSgd, AsZpl};

verus! {

/// Relies on `std::path::PathBuf` only as an opaque value that names the file
/// whose contents the caller reads.
#[verifier::external_type_specification]
#[verifier::external_body]
pub struct ExPathBuf(std::path::PathBuf);

/// Memory area of the device that receives an uploaded object.
#[derive(Clone, Copy, Debug, PartialEq, Eq, Structural)]
pub enum UploadLocation {
    /// RAM
    R,
    /// Flash
    E,
    /// PCMCIA
    B,
}

impl UploadLocation {
    /// The one-letter wire code of the location.
    pub open spec fn code_text(self) -> Seq<char> {
        match self {
            UploadLocation::R => "R"@,
            UploadLocation::E => "E"@,
            UploadLocation::B => "B"@,
        }
    }

    /// The one-letter wire code of the location.
    pub fn code(&self) -> (r: &'static str)
        ensures
            r@ == self.code_text(),
    {
        match self {
            UploadLocation::R => "R",
            UploadLocation::E => "E",
            UploadLocation::B => "B",
        }
    }
}

/// Position of the last `.` among the first `end` characters of `name`, or
/// -1 when there is none.
pub open spec fn last_dot_before(name: Seq<char>, end: int) -> int
    decreases end,
{
    if end <= 0 {
        -1
    } else if name[end - 1] == '.' {
        end - 1
    } else {
        last_dot_before(name, end - 1)
    }
}

/// The part of `name` after its last `.`; empty when `name` has no `.`.
pub open spec fn extension_of(name: Seq<char>) -> Seq<char> {
    let d = last_dot_before(name, name.len() as int);
    if d < 0 {
        Seq::empty()
    } else {
        name.subrange(d + 1, name.len() as int)
    }
}

/// `last_dot_before` finds the last `.` below `end`, and only a `.`.
pub proof fn lemma_last_dot_before(name: Seq<char>, end: int)
    requires
        0 <= end <= name.len(),
    ensures
        -1 <= last_dot_before(name, end) < end,
        last_dot_before(name, end) >= 0 ==> name[last_dot_before(name, end)] == '.',
        forall|j: int| last_dot_before(name, end) < j < end ==> name[j] != '.',
    decreases end,
{
    if end > 0 && name[end - 1] != '.' {
        lemma_last_dot_before(name, end - 1);
    }
}

/// The extension holds no `.`; a name without `.` has the empty extension,
/// and a name with one is what precedes its last `.`, the `.`, and the
/// extension.
pub proof fn lemma_extension_of(name: Seq<char>)
    ensures
        !extension_of(name).contains('.'),
        !name.contains('.') ==> extension_of(name) == Seq::<char>::empty(),
        name.contains('.') ==> name == name.subrange(
            0,
            name.len() - extension_of(name).len() - 1,
        ) + seq!['.'] + extension_of(name),
{
    let n = name.len() as int;
    lemma_last_dot_before(name, n);
    let d = last_dot_before(name, n);
    if d >= 0 {
        let e = extension_of(name);
        assert forall|j: int| 0 <= j < e.len() implies e[j] != '.' by {
            assert(e[j] == name[d + 1 + j]);
        }
        assert(name =~= name.subrange(0, d) + seq!['.'] + e);
    } else {
        assert forall|j: int| 0 <= j < n implies name[j] != '.' by {}
    }
}

/// The extension field of a directive for destination `dest`: the text after
/// the last `.`, or the empty string when `dest` has no `.`.
pub fn extension(dest: &str) -> (r: &str)
    ensures
        r@ == extension_of(dest@),
        !r@.contains('.'),
        !dest@.contains('.') ==> r@.len() == 0,
{
    proof {
        lemma_extension_of(dest@);
    }
    let n = dest.unicode_len();
    let mut i = n;
    while i > 0
        invariant
            i <= n,
            n == dest@.len(),
            last_dot_before(dest@, n as int) == last_dot_before(dest@, i as int),
        decreases i,
    {
        // `get_char` walks the string from its start; destination names are short.
        if dest.get_char(i - 1) == '.' {
            assert(last_dot_before(dest@, i as int) == i - 1);
            proof {
                lemma_extension_of(dest@);
            }
            return dest.substring_char(i, n);
        }
        i = i - 1;
    }
    dest.substring_char(n, n)
}

/// The header text of a directive up to its size field.
pub open spec fn header_lead(loc: UploadLocation, dest: Seq<char>) -> Seq<char> {
    "~DY"@ + loc.code_text() + ":"@ + dest + ",B,"@ + extension_of(dest) + ","@
}

/// The header text of a directive for a payload of `size` bytes.
pub open spec fn header_text(loc: UploadLocation, dest: Seq<char>, size: nat) -> Seq<char> {
    header_lead(loc, dest) + decimal(size) + ",,"@
}

/// The bytes of a directive that stores `data` under the name `dest` at `loc`.
pub open spec fn directive_bytes(loc: UploadLocation, dest: Seq<char>, data: Seq<u8>) -> Seq<u8> {
    encode_utf8(header_text(loc, dest, data.len())) + data + encode_utf8("\r\n"@)
}

/// A directive is its header, the payload unchanged, and CR LF, so it is
/// two bytes longer than header and payload together; the header's size
/// field is the payload's length in decimal.
pub proof fn lemma_directive_layout(loc: UploadLocation, dest: Seq<char>, data: Seq<u8>)
    ensures
        directive_bytes(loc, dest, data) == encode_utf8(header_text(loc, dest, data.len())) + data
            + seq![13u8, 10u8],
        directive_bytes(loc, dest, data).len() == encode_utf8(
            header_text(loc, dest, data.len()),
        ).len() + data.len() + 2,
        header_text(loc, dest, data.len()) == header_lead(loc, dest) + decimal(data.len())
            + ",,"@,
        decimal_value(decimal(data.len())) == data.len(),
{
    reveal_strlit("\r\n");
    assert(is_ascii_chars("\r\n"@));
    is_ascii_chars_encode_utf8("\r\n"@);
    assert(encode_utf8("\r\n"@) =~= seq![13u8, 10u8]);
    lemma_decimal_value(data.len());
}

/// Encodes the directive that stores `data` on the device under the name
/// `dest` in the memory area `loc`.
pub fn upload_directive(loc: UploadLocation, data: &[u8], dest: &str) -> (r: Vec<u8>)
    ensures
        r@ == directive_bytes(loc, dest@, data@),
{
    let mut out: Vec<u8> = Vec::new();
    append_str(&mut out, "~DY");
    append_str(&mut out, loc.code());
    append_str(&mut out, ":");
    append_str(&mut out, dest);
    append_str(&mut out, ",B,");
    append_str(&mut out, extension(dest));
    append_str(&mut out, ",");
    append_decimal(&mut out, data.len() as u64);
    append_str(&mut out, ",,");
    append_bytes(&mut out, data);
    append_str(&mut out, "\r\n");
    proof {
        let p0 = "~DY"@;
        let p1 = p0 + loc.code_text();
        let p2 = p1 + ":"@;
        let p3 = p2 + dest@;
        let p4 = p3 + ",B,"@;
        let p5 = p4 + extension_of(dest@);
        let p6 = p5 + ","@;
        let p7 = p6 + decimal(data@.len());
        lemma_encode_utf8_concat(p0, loc.code_text());
        lemma_encode_utf8_concat(p1, ":"@);
        lemma_encode_utf8_concat(p2, dest@);
        lemma_encode_utf8_concat(p3, ",B,"@);
        lemma_encode_utf8_concat(p4, extension_of(dest@));
        lemma_encode_utf8_concat(p5, ","@);
        lemma_encode_utf8_concat(p6, decimal(data@.len()));
        lemma_encode_utf8_concat(p7, ",,"@);
    }
    out
}

/// Stores one file on the device.
pub struct UploadFileCommand {
    /// Memory area of the device to write the file to.
    pub loc: UploadLocation,
    /// The path of the file to upload.
    pub file: PathBuf,
    /// The name to store the file under on the device, e.g. `HTTPS_CA.NRD`.
    pub dest: String,
}

impl UploadFileCommand {
    pub fn new(loc: UploadLocation, file: PathBuf, dest: String) -> (r: Self)
        ensures
            r.loc == loc,
            r.file == file,
            r.dest == dest,
    {
        UploadFileCommand { loc, file, dest }
    }
}

impl AsZpl for UploadFileCommand {
    open spec fn source_count(&self) -> nat {
        1
    }

    open spec fn zpl_bytes(&self, contents: Seq<Seq<u8>>) -> Seq<u8> {
        directive_bytes(self.loc, self.dest@, contents[0])
    }

    fn as_zpl(&self, contents: &Vec<Vec<u8>>) -> (r: Vec<u8>) {
        upload_directive(self.loc, contents[0].as_slice(), self.dest.as_str())
    }
}

/// Device name of the certificate authority file.
pub open spec fn ca_name() -> Seq<char> {
    "HTTPS_CA.NRD"@
}

/// Device name of the certificate file.
pub open spec fn cert_name() -> Seq<char> {
    "HTTPS_CERT.NRD"@
}

/// Device name of the private key file.
pub open spec fn key_name() -> Seq<char> {
    "HTTPS_KEY.NRD"@
}

/// The three directives that store the certificate authority, certificate
/// and key files in flash, one after the other.
pub open spec fn ssl_bundle_bytes(ca: Seq<u8>, cert: Seq<u8>, key: Seq<u8>) -> Seq<u8> {
    directive_bytes(UploadLocation::E, ca_name(), ca) + directive_bytes(
        UploadLocation::E,
        cert_name(),
        cert,
    ) + directive_bytes(UploadLocation::E, key_name(), key)
}

/// The messages that install the certificate files and switch HTTPS on at
/// `port`: the three uploads, `ip.https.enable` set to `on`, `ip.https.port`
/// set to the port, and, when `reset` holds, the `device.reset` action.
pub open spec fn ssl_setup_messages(
    ca: Seq<u8>,
    cert: Seq<u8>,
    key: Seq<u8>,
    port: u16,
    reset: bool,
) -> Seq<Seq<u8>> {
    let installs = seq![
        directive_bytes(UploadLocation::E, ca_name(), ca),
        directive_bytes(UploadLocation::E, cert_name(), cert),
        directive_bytes(UploadLocation::E, key_name(), key),
        encode_utf8(setvar_text("ip.https.enable"@, "on"@)),
        encode_utf8(setvar_text("ip.https.port"@, decimal(port as nat))),
    ];
    if reset {
        installs.push(encode_utf8(do_text("device.reset"@, None)))
    } else {
        installs
    }
}

/// Installs the certificate authority, certificate and key used by the
/// device's HTTPS server.
pub struct UploadSslCommand {
    /// Path to the certificate authority file.
    pub ca: PathBuf,
    /// Path to the certificate file.
    pub cert: PathBuf,
    /// Path to the key file.
    pub key: PathBuf,
    /// The port HTTPS listens on.
    pub port: u16,
    /// Whether to reset the device afterwards, so that the settings apply.
    pub reset: bool,
}

impl UploadSslCommand {
    /// The messages to send, in order, to install the files whose contents
    /// are `ca`, `cert` and `key` and switch HTTPS on.
    pub fn setup_messages(&self, ca: &[u8], cert: &[u8], key: &[u8]) -> (r: Vec<Vec<u8>>)
        ensures
            byte_views(r@) == ssl_setup_messages(ca@, cert@, key@, self.port, self.reset),
    {
        let mut out: Vec<Vec<u8>> = Vec::new();
        out.push(upload_directive(UploadLocation::E, ca, "HTTPS_CA.NRD"));
        out.push(upload_directive(UploadLocation::E, cert, "HTTPS_CERT.NRD"));
        out.push(upload_directive(UploadLocation::E, key, "HTTPS_KEY.NRD"));
        out.push(SdgSet::new("ip.https.enable", "on").as_sgd());
        out.push(setvar_number("ip.https.port", self.port as u64));
        if self.reset {
            out.push(SdgDo::new("device.reset", None).as_sgd());
        }
        proof {
            let expected = ssl_setup_messages(ca@, cert@, key@, self.port, self.reset);
            assert(byte_views(out@) =~= expected);
        }
        out
    }
}

impl AsZpl for UploadSslCommand {
    open spec fn source_count(&self) -> nat {
        3
    }

    open spec fn zpl_bytes(&self, contents: Seq<Seq<u8>>) -> Seq<u8> {
        ssl_bundle_bytes(contents[0], contents[1], contents[2])
    }

    fn as_zpl(&self, contents: &Vec<Vec<u8>>) -> (r: Vec<u8>) {
        let mut out = upload_directive(UploadLocation::E, contents[0].as_slice(), "HTTPS_CA.NRD");
        let mut cert = upload_directive(
            UploadLocation::E,
            contents[1].as_slice(),
            "HTTPS_CERT.NRD",
        );
        let mut key = upload_directive(UploadLocation::E, contents[2].as_slice(), "HTTPS_KEY.NRD");
        out.append(&mut cert);
        out.append(&mut key);
        out
    }
}

/// An upload of one file, or of the HTTPS certificate files.
pub enum UploadCommand {
    File(UploadFileCommand),
    Ssl(UploadSslCommand),
}

impl AsZpl for UploadCommand {
    open spec fn source_count(&self) -> nat {
        match self {
            UploadCommand::File(c) => c.source_count(),
            UploadCommand::Ssl(c) => c.source_count(),
        }
    }

    open spec fn zpl_bytes(&self, contents: Seq<Seq<u8>>) -> Seq<u8> {
        match self {
            UploadCommand::File(c) => c.zpl_bytes(contents),
            UploadCommand::Ssl(c) => c.zpl_bytes(contents),
        }
    }

    fn as_zpl(&self, contents: &Vec<Vec<u8>>) -> (r: Vec<u8>) {
        match self {
            UploadCommand::File(c) => c.as_zpl(contents),
            UploadCommand::Ssl(c) => c.as_zpl(contents),
        }
    }
}

} // verus!
