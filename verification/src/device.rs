//! Device identifiers.
use vstd::prelude::*;
use vstd::string::StrSliceExecFns;

use crate::encoding::{blake3_digest, blake3_hash, crockford_encoding, encode_crockford};

verus! {

/// Every fourth character of `s`, starting with the first.
pub open spec fn label_of(s: Seq<char>) -> Seq<char> {
    Seq::new(((s.len() + 3) / 4) as nat, |i: int| s[4 * i])
}

/// The identifier of a device: a text derived from its public key.
#[derive(Debug, Clone, Hash)]
pub struct DeviceId(pub String);

impl View for DeviceId {
    type V = Seq<char>;

    open spec fn view(&self) -> Seq<char> {
        self.0@
    }
}

impl core::ops::Deref for DeviceId {
    type Target = String;

    fn deref(&self) -> (text: &String)
        ensures
            text@ == self@,
    {
        &self.0
    }
}

impl DeviceId {
    /// The identifier of the device whose Ed25519 public key is `key`: the Crockford
    /// base32 text of the BLAKE3 digest of the key's 32 bytes.
    pub fn from_verifying_key(key: &[u8; 32]) -> (id: DeviceId)
        ensures
            id@ == crockford_encoding(blake3_digest(key@)),
            id@.len() == 52,
            label_of(id@).len() == 13,
    {
        let digest = blake3_hash(key.as_slice());
        let text = encode_crockford(digest.as_slice());
        DeviceId(text)
    }

    /// The short form of the identifier: its characters at positions 0, 4, 8, ...
    pub fn label(&self) -> (res: String)
        ensures
            res@ == label_of(self@),
    {
        let s = self.0.as_str();
        let n = s.unicode_len();
        let count: usize = if n % 4 == 0 { n / 4 } else { n / 4 + 1 };
        assert(count == (n + 3) / 4);
        let mut out = String::new();
        for k in 0..count
            invariant
                n == self@.len(),
                s@ == self@,
                count == (n + 3) / 4,
                out@ =~= label_of(self@).take(k as int),
        {
            assert(4 * k < n) by (nonlinear_arith)
                requires
                    k < count,
                    count == (n + 3) / 4,
            ;
            let c = s.get_char(4 * k);
            out.push(c);
            assert(out@ =~= label_of(self@).take(k + 1));
        }
        assert(out@ =~= label_of(self@));
        out
    }
}

} // verus!
