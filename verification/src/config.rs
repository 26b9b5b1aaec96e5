//! Settings that the engine is started with.

use vstd::prelude::*;
use crate::text::str_eq;

verus! {

/// The number of buffers that are kept for later requests unless the caller
/// asks for another number.
pub const DEFAULT_CACHE_BUFFERS: usize = 8;

/// A certificate file in a directory is read only if it is shorter than
/// this many bytes.
pub const MAX_CERT_FILE_LEN: u64 = 8192;

/// Top level configuration.
#[derive(Clone)]
pub struct HttpcCfg {
    /// Extra root certificates in DER format.
    pub der_ca: Vec<Vec<u8>>,
    /// Extra root certificates in PEM format.
    pub pem_ca: Vec<Vec<u8>>,
    /// How many 8K buffers are kept for later requests. Every request
    /// needs two.
    pub cache_buffers: usize,
}

/// Whether a file extension marks a certificate file: it is `crt` or
/// `pem`, in small letters.
pub open spec fn is_cert_extension(extension: Seq<char>) -> bool {
    extension == "crt"@ || extension == "pem"@
}

/// Whether a file of the given extension and length is one of the
/// certificate files that are read from a directory: the extension marks a
/// certificate file, and the file is shorter than [`MAX_CERT_FILE_LEN`].
pub open spec fn is_cert_file(extension: Seq<char>, len: u64) -> bool {
    is_cert_extension(extension) && len < MAX_CERT_FILE_LEN
}

impl Default for HttpcCfg {
    /// No certificates and no cached buffers.
    fn default() -> (cfg: HttpcCfg)
        ensures
            cfg.der_ca@.len() == 0,
            cfg.pem_ca@.len() == 0,
            cfg.cache_buffers == 0,
    {
        HttpcCfg { der_ca: Vec::new(), pem_ca: Vec::new(), cache_buffers: 0 }
    }
}

impl HttpcCfg {
    /// No extra certificates, and [`DEFAULT_CACHE_BUFFERS`] cached buffers.
    pub fn new() -> (cfg: HttpcCfg)
        ensures
            cfg.der_ca@.len() == 0,
            cfg.pem_ca@.len() == 0,
            cfg.cache_buffers == DEFAULT_CACHE_BUFFERS,
    {
        HttpcCfg { der_ca: Vec::new(), pem_ca: Vec::new(), cache_buffers: DEFAULT_CACHE_BUFFERS }
    }

    /// Whether a file found in a directory of certificates may be one of
    /// them, going by its extension alone.
    pub fn wants_extension(extension: &str) -> (wanted: bool)
        ensures
            wanted == is_cert_extension(extension@),
    {
        str_eq(extension, "crt") || str_eq(extension, "pem")
    }

    /// Whether a file found in a directory of certificates is to be read,
    /// going by its extension and its length.
    pub fn wants_cert_file(extension: &str, len: u64) -> (wanted: bool)
        ensures
            wanted == is_cert_file(extension@, len),
    {
        HttpcCfg::wants_extension(extension) && len < MAX_CERT_FILE_LEN
    }

    /// Adds the contents of a PEM file to the extra root certificates. The
    /// bytes are taken as they are: what they hold is not looked at.
    pub fn add_pem_ca(&mut self, contents: Vec<u8>)
        ensures
            final(self).pem_ca@ == old(self).pem_ca@.push(contents),
            final(self).der_ca@ == old(self).der_ca@,
            final(self).cache_buffers == old(self).cache_buffers,
    {
        self.pem_ca.push(contents);
    }
}

} // verus!
