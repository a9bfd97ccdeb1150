//! The SGD command codec: `getvar`, `setvar` and `do` lines.
//!
//! Keys and values are inserted verbatim between double quotes; an embedded
//! quote character is not escaped, which is how the device firmware expects
//! the text.
use vstd::prelude::*;
use vstd::utf8::encode_utf8;

use crate::text::{append_decimal, append_str, decimal, lemma_encode_utf8_concat};
use crate::AsSgd;

verus! {

/// The text of a get command: `! U1 getvar "<key>"` and CR LF.
pub open spec fn getvar_text(key: Seq<char>) -> Seq<char> {
    "! U1 getvar \""@ + key + "\"\r\n"@
}

/// The text of a set command: `! U1 setvar "<key>" "<value>"` and CR LF.
pub open spec fn setvar_text(key: Seq<char>, value: Seq<char>) -> Seq<char> {
    "! U1 setvar \""@ + key + "\" \""@ + value + "\"\r\n"@
}

/// The text of a do command: `! U1 do "<key>" "<value>"` and CR LF, where an
/// absent value is written as the empty quoted string.
pub open spec fn do_text(key: Seq<char>, value: Option<Seq<char>>) -> Seq<char> {
    let v = match value {
        Some(v) => v,
        None => Seq::empty(),
    };
    "! U1 do \""@ + key + "\" \""@ + v + "\"\r\n"@
}

/// Reads the variable `key` from the device.
pub struct SdgGet {
    /// The key of the SGD get variable.
    pub key: String,
}

impl SdgGet {
    pub fn new(key: &str) -> (r: Self)
        ensures
            r.key@ == key@,
    {
        SdgGet { key: key.to_owned() }
    }
}

impl AsSgd for SdgGet {
    open spec fn sgd_bytes(&self) -> Seq<u8> {
        encode_utf8(getvar_text(self.key@))
    }

    fn as_sgd(&self) -> (r: Vec<u8>) {
        let mut out: Vec<u8> = Vec::new();
        append_str(&mut out, "! U1 getvar \"");
        append_str(&mut out, self.key.as_str());
        append_str(&mut out, "\"\r\n");
        proof {
            lemma_encode_utf8_concat("! U1 getvar \""@, self.key@);
            lemma_encode_utf8_concat("! U1 getvar \""@ + self.key@, "\"\r\n"@);
        }
        out
    }
}

/// Sets the variable `key` to `value` on the device.
pub struct SdgSet {
    /// The key of the SGD set variable.
    pub key: String,
    /// The value to set the key to.
    pub value: String,
}

impl SdgSet {
    pub fn new(key: &str, value: &str) -> (r: Self)
        ensures
            r.key@ == key@,
            r.value@ == value@,
    {
        SdgSet { key: key.to_owned(), value: value.to_owned() }
    }
}

impl AsSgd for SdgSet {
    open spec fn sgd_bytes(&self) -> Seq<u8> {
        encode_utf8(setvar_text(self.key@, self.value@))
    }

    fn as_sgd(&self) -> (r: Vec<u8>) {
        let mut out: Vec<u8> = Vec::new();
        append_str(&mut out, "! U1 setvar \"");
        append_str(&mut out, self.key.as_str());
        append_str(&mut out, "\" \"");
        append_str(&mut out, self.value.as_str());
        append_str(&mut out, "\"\r\n");
        proof {
            let a = "! U1 setvar \""@;
            let b = "\" \""@;
            let c = "\"\r\n"@;
            lemma_encode_utf8_concat(a, self.key@);
            lemma_encode_utf8_concat(a + self.key@, b);
            lemma_encode_utf8_concat(a + self.key@ + b, self.value@);
            lemma_encode_utf8_concat(a + self.key@ + b + self.value@, c);
        }
        out
    }
}

/// Encodes the set command that gives the variable `key` the decimal text of
/// `value`.
pub fn setvar_number(key: &str, value: u64) -> (r: Vec<u8>)
    ensures
        r@ == encode_utf8(setvar_text(key@, decimal(value as nat))),
{
    let mut out: Vec<u8> = Vec::new();
    append_str(&mut out, "! U1 setvar \"");
    append_str(&mut out, key);
    append_str(&mut out, "\" \"");
    append_decimal(&mut out, value);
    append_str(&mut out, "\"\r\n");
    proof {
        let a = "! U1 setvar \""@;
        let b = "\" \""@;
        let c = "\"\r\n"@;
        let v = decimal(value as nat);
        lemma_encode_utf8_concat(a, key@);
        lemma_encode_utf8_concat(a + key@, b);
        lemma_encode_utf8_concat(a + key@ + b, v);
        lemma_encode_utf8_concat(a + key@ + b + v, c);
    }
    out
}

/// Runs the device action `key`, with an optional argument.
pub struct SdgDo {
    /// The name of the operation to perform.
    pub key: String,
    /// The argument of the operation; absent means the empty string.
    pub value: Option<String>,
}

impl SdgDo {
    pub fn new(key: &str, value: Option<String>) -> (r: Self)
        ensures
            r.key@ == key@,
            r.value == value,
    {
        SdgDo { key: key.to_owned(), value }
    }

    /// The argument as text, if there is one.
    pub open spec fn value_text(&self) -> Option<Seq<char>> {
        match self.value {
            Some(v) => Some(v@),
            None => None,
        }
    }
}

impl AsSgd for SdgDo {
    open spec fn sgd_bytes(&self) -> Seq<u8> {
        encode_utf8(do_text(self.key@, self.value_text()))
    }

    fn as_sgd(&self) -> (r: Vec<u8>) {
        let mut out: Vec<u8> = Vec::new();
        append_str(&mut out, "! U1 do \"");
        append_str(&mut out, self.key.as_str());
        append_str(&mut out, "\" \"");
        let ghost v: Seq<char> = match self.value_text() {
            Some(t) => t,
            None => Seq::empty(),
        };
        match &self.value {
            Some(value) => append_str(&mut out, value.as_str()),
            None => {
                assert(encode_utf8(v) =~= Seq::<u8>::empty());
            },
        }
        append_str(&mut out, "\"\r\n");
        proof {
            let a = "! U1 do \""@;
            let b = "\" \""@;
            let c = "\"\r\n"@;
            lemma_encode_utf8_concat(a, self.key@);
            lemma_encode_utf8_concat(a + self.key@, b);
            lemma_encode_utf8_concat(a + self.key@ + b, v);
            lemma_encode_utf8_concat(a + self.key@ + b + v, c);
        }
        out
    }
}

} // verus!
