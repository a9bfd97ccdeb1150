//! The closed set of commands the client sends, with one encoder dispatch.
use vstd::prelude::*;

use crate::sdg::{SdgDo, SdgGet, SdgSet};
use crate::text::byte_views;
use crate::upload::UploadCommand;
use crate::{AsSgd, AsZpl};

verus! {

/// A command for the device.
pub enum Command {
    /// Read a configuration value by key.
    Get(SdgGet),
    /// Set a configuration value by key.
    SetVar(SdgSet),
    /// Perform an action by name.
    Do(SdgDo),
    /// Upload files such as firmware, certificates or keys.
    Upload(UploadCommand),
}

impl Command {
    /// How many source file contents `encode` takes.
    pub open spec fn source_count(&self) -> nat {
        match self {
            Command::Upload(u) => u.source_count(),
            _ => 0,
        }
    }

    /// The bytes `encode` produces from the given file contents.
    pub open spec fn wire_bytes(&self, contents: Seq<Seq<u8>>) -> Seq<u8> {
        match self {
            Command::Get(c) => c.sgd_bytes(),
            Command::SetVar(c) => c.sgd_bytes(),
            Command::Do(c) => c.sgd_bytes(),
            Command::Upload(u) => u.zpl_bytes(contents),
        }
    }

    /// Encodes the command; an upload embeds the given file contents.
    pub fn encode(&self, contents: &Vec<Vec<u8>>) -> (r: Vec<u8>)
        requires
            contents@.len() == self.source_count(),
        ensures
            r@ == self.wire_bytes(byte_views(contents@)),
    {
        match self {
            Command::Get(c) => c.as_sgd(),
            Command::SetVar(c) => c.as_sgd(),
            Command::Do(c) => c.as_sgd(),
            Command::Upload(u) => u.as_zpl(contents),
        }
    }

    /// Whether the device answers the command, so that the caller reads a
    /// response after sending it: only a get does.
    pub fn expects_response(&self) -> (r: bool)
        ensures
            r == (self is Get),
    {
        match self {
            Command::Get(_) => true,
            _ => false,
        }
    }
}

} // verus!
