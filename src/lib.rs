//! Control-plane client library for label printers: the SGD (Set/Get/Do)
//! command encoder, the `~DY` object-upload encoder, and the decision logic
//! of the TCP session that carries them.
use vstd::prelude::*;

use crate::text::byte_views;

pub mod command;
pub mod connection;
pub mod response;
pub mod sdg;
pub mod text;
pub mod upload;

verus! {

/// A command of the SGD text protocol, encoded as the bytes the device expects.
pub trait AsSgd {
    /// The exact bytes that `as_sgd` produces for this command.
    spec fn sgd_bytes(&self) -> Seq<u8>;

    /// Encodes the command as one protocol line.
    fn as_sgd(&self) -> (r: Vec<u8>)
        ensures
            r@ == self.sgd_bytes(),
    ;
}

/// An upload directive of the device's command language. Its payloads are
/// the contents of source files, which the caller reads and hands over in
/// the order the command names them.
pub trait AsZpl {
    /// How many source files the directive embeds.
    spec fn source_count(&self) -> nat;

    /// The exact bytes that `as_zpl` produces from the given file contents.
    spec fn zpl_bytes(&self, contents: Seq<Seq<u8>>) -> Seq<u8>;

    /// Encodes the directive around the given file contents.
    fn as_zpl(&self, contents: &Vec<Vec<u8>>) -> (r: Vec<u8>)
        requires
            contents@.len() == self.source_count(),
        ensures
            r@ == self.zpl_bytes(byte_views(contents@)),
    ;
}

} // verus!
