//! Discovery of the optional extensions of the protocol.
//!
//! The host lists them in a pseudo-file: a four-byte magic prefix, then a
//! bitmap in which each bit flags one extension.

use vstd::prelude::*;
use crate::fs::{File, OpenMode, OpenRequest};

verus! {

/// How many bitmap bytes are read. The extensions defined so far all sit in
/// the first byte.
pub const MAX_FEATURES_LEN: usize = 1;

/// The bytes the pseudo-file starts with: `SHGB`.
pub open spec fn magic() -> Seq<u8> {
    seq![0x53, 0x48, 0x47, 0x42]
}

/// The pseudo-file's path, `":semihosting-features"` and its NUL.
pub open spec fn features_path() -> Seq<u8> {
    seq![
        0x3a, 0x73, 0x65, 0x6d, 0x69, 0x68, 0x6f, 0x73, 0x74, 0x69, 0x6e, 0x67, 0x2d, 0x66,
        0x65, 0x61, 0x74, 0x75, 0x72, 0x65, 0x73, 0x00,
    ]
}

/// Whether bit `bit` of a bitmap byte is set.
pub open spec fn bit_set(b: u8, bit: u32) -> bool {
    (b >> bit) & 1 == 1
}

/// The extensions the host supports.
#[derive(Clone, Debug)]
pub struct Extensions {
    bytes: Vec<u8>,
}

impl Extensions {
    /// The bitmap bytes that were read.
    pub closed spec fn features(self) -> Seq<u8> {
        self.bytes@
    }

    /// The request that opens the pseudo-file, for binary reading.
    pub fn features_file() -> (r: OpenRequest)
        ensures
            r.spec_path() == features_path(),
            r.spec_mode() == OpenMode::ReadBinary,
    {
        let path: Vec<u8> = vec![
            0x3a, 0x73, 0x65, 0x6d, 0x69, 0x68, 0x6f, 0x73, 0x74, 0x69, 0x6e, 0x67, 0x2d, 0x66,
            0x65, 0x61, 0x74, 0x75, 0x72, 0x65, 0x73, 0x00,
        ];
        File::open(path.as_slice(), OpenMode::ReadBinary)
    }

    /// Whether the first four bytes read from the pseudo-file are its magic
    /// prefix. Only then is the bitmap worth reading.
    pub fn has_magic(prefix: &[u8]) -> (r: bool)
        ensures
            r <==> prefix@ == magic(),
    {
        if prefix.len() != 4 {
            return false;
        }
        let ok = prefix[0] == 0x53 && prefix[1] == 0x48 && prefix[2] == 0x47 && prefix[3] == 0x42;
        assert(ok ==> prefix@ =~= magic());
        ok
    }

    /// The extensions, from the bytes read from the pseudo-file: the prefix,
    /// and the bitmap bytes after it.
    ///
    /// A prefix that is not the magic one is a failure. Of the bitmap, the
    /// first `MAX_FEATURES_LEN` bytes are kept.
    pub fn open(prefix: &[u8], feature_bytes: &[u8]) -> (r: Result<Extensions, ()>)
        ensures
            r is Err <==> prefix@ != magic(),
            r matches Ok(e) ==> e.features() == feature_bytes@.take(
                if feature_bytes@.len() < MAX_FEATURES_LEN {
                    feature_bytes@.len() as int
                } else {
                    MAX_FEATURES_LEN as int
                },
            ),
    {
        if !Extensions::has_magic(prefix) {
            return Err(());
        }
        let mut bytes: Vec<u8> = Vec::new();
        let mut i: usize = 0;
        while i < feature_bytes.len() && i < MAX_FEATURES_LEN
            invariant
                i <= feature_bytes@.len(),
                i <= MAX_FEATURES_LEN,
                bytes@ == feature_bytes@.take(i as int),
            decreases MAX_FEATURES_LEN - i,
        {
            bytes.push(feature_bytes[i]);
            i += 1;
            assert(bytes@ =~= feature_bytes@.take(i as int));
        }
        Ok(Extensions { bytes })
    }

    /// Whether the extension flagged by bit `bit` of bitmap byte `byte` is
    /// supported. A byte past the end of the bitmap that was read has all its
    /// extensions unsupported.
    pub fn is_supported(&self, byte: usize, bit: usize) -> (r: bool)
        requires
            bit < 8,
        ensures
            r <==> byte < self.features().len() && bit_set(self.features()[byte as int], bit as u32),
    {
        if byte < self.bytes.len() {
            (self.bytes[byte] >> (bit as u32)) & 1 == 1
        } else {
            false
        }
    }
}

} // verus!
