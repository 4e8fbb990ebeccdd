//! Configuration of the Unix-domain socket source.

use vstd::prelude::*;

verus! {

#[verifier::external_type_specification]
#[verifier::external_body]
pub struct ExPathBuf(std::path::PathBuf);

/// Relies on `bytesize::kib`: the number of bytes in `size` kibibytes,
/// `size * 1024`, which overflows beyond `u64::MAX / 1024`.
#[verifier::external_body]
fn kib(size: u64) -> (r: u64)
    requires
        size <= u64::MAX / 1024,
    ensures
        r == size * 1024,
{
    bytesize::kib(size)
}

/// The default read size ceiling for datagrams, in bytes.
pub open spec fn spec_default_max_length() -> nat {
    102400
}

/// One hundred kibibytes.
pub fn default_max_length() -> (r: usize)
    ensures
        r == spec_default_max_length(),
{
    let n = kib(100u64);
    n as usize
}

/// How a byte stream or a datagram is cut into records.
#[derive(Debug, Clone, Copy, PartialEq, Eq, Structural)]
pub enum FramingConfig {
    /// One record per datagram or per read.
    Bytes,
    /// Records end at a newline.
    NewlineDelimited,
}

/// Decoding settings handed to the decoder factory; `framing` is `None`
/// where the transport's own default applies.
#[derive(Debug, Clone, Copy, PartialEq, Eq, Structural)]
pub struct DecodingConfig {
    pub framing: Option<FramingConfig>,
}

impl Default for DecodingConfig {
    fn default() -> (r: DecodingConfig)
        ensures
            r.framing.is_none(),
    {
        DecodingConfig { framing: None }
    }
}

/// Settings of a Unix-domain socket source.
#[derive(Debug)]
pub struct UnixConfig {
    pub path: std::path::PathBuf,
    pub max_length: usize,
    pub host_key: Option<String>,
    pub decoding: DecodingConfig,
}

impl UnixConfig {
    /// A source on `path` with every other setting at its default.
    pub fn new(path: std::path::PathBuf) -> (r: UnixConfig)
        ensures
            r.path == path,
            r.max_length == spec_default_max_length(),
            r.host_key.is_none(),
            r.decoding.framing.is_none(),
    {
        UnixConfig {
            path,
            max_length: default_max_length(),
            host_key: None,
            decoding: DecodingConfig::default(),
        }
    }
}

} // verus!
