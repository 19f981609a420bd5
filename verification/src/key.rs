//! Key references: a capability is either a single public key or a composite
//! threshold structure over several keys. In the document schema a public key
//! is written as the lower-case hexadecimal of its DER encoding, whose prefix
//! is fixed for the one supported key algorithm.

use vstd::prelude::*;

use crate::codec::{hex_decode, hex_encode, hex_str, parse_hex};
use crate::error::DecodeError;

verus! {

/// The fixed DER prefix in front of the 32 raw key bytes.
pub open spec fn der_prefix() -> Seq<u8> {
    seq![0x30u8, 0x2au8, 0x30u8, 0x05u8, 0x06u8, 0x03u8, 0x2bu8, 0x65u8, 0x70u8, 0x03u8, 0x21u8,
        0x00u8]
}

/// The DER prefix as bytes.
pub fn der_prefix_bytes() -> (r: Vec<u8>)
    ensures
        r@ == der_prefix(),
{
    let mut v: Vec<u8> = Vec::new();
    v.push(0x30);
    v.push(0x2a);
    v.push(0x30);
    v.push(0x05);
    v.push(0x06);
    v.push(0x03);
    v.push(0x2b);
    v.push(0x65);
    v.push(0x70);
    v.push(0x03);
    v.push(0x21);
    v.push(0x00);
    proof {
        assert(v@ =~= der_prefix());
    }
    v
}

/// A single public key, held as its 32 raw bytes.
#[derive(Debug, Clone, PartialEq, Eq)]
pub struct PublicKey {
    pub bytes: Vec<u8>,
}

impl View for PublicKey {
    type V = Seq<u8>;

    open spec fn view(&self) -> Seq<u8> {
        self.bytes@
    }
}

/// The textual form of a public key: hexadecimal of prefix plus raw bytes.
pub open spec fn key_text(raw: Seq<u8>) -> Seq<char> {
    hex_str(der_prefix() + raw)
}

/// What decoding a key text yields: defined exactly when the text is the
/// hexadecimal of 44 bytes opening with the fixed prefix.
pub open spec fn parse_key_text(s: Seq<char>) -> Option<Seq<u8>> {
    match parse_hex(s) {
        Some(b) => if b.len() == 44 && b.take(12) == der_prefix() {
            Some(b.skip(12))
        } else {
            None
        },
        None => None,
    }
}

/// Decoding inverts encoding for every 32-byte key.
pub proof fn lemma_key_text_round_trip(raw: Seq<u8>)
    requires
        raw.len() == 32,
    ensures
        parse_key_text(key_text(raw)) == Some(raw),
{
    let full = der_prefix() + raw;
    crate::codec::lemma_hex_round_trip(full);
    assert(full.take(12) =~= der_prefix());
    assert(full.skip(12) =~= raw);
}

impl PublicKey {
    /// Whether this key holds exactly its 32 raw bytes.
    pub open spec fn wf(&self) -> bool {
        self.bytes@.len() == 32
    }

    /// A key from its 32 raw bytes.
    pub fn from_bytes(bytes: Vec<u8>) -> (r: Self)
        requires
            bytes@.len() == 32,
        ensures
            r.bytes@ == bytes@,
            r.wf(),
    {
        PublicKey { bytes }
    }

    /// The textual form: hexadecimal of the DER encoding.
    pub fn to_text(&self) -> (r: String)
        ensures
            r@ == key_text(self.bytes@),
    {
        let mut full = der_prefix_bytes();
        let mut i: usize = 0;
        while i < self.bytes.len()
            invariant
                0 <= i <= self.bytes@.len(),
                full@ == der_prefix() + self.bytes@.take(i as int),
            decreases self.bytes@.len() - i,
        {
            full.push(self.bytes[i]);
            proof {
                assert(der_prefix() + self.bytes@.take(i + 1) =~= (der_prefix()
                    + self.bytes@.take(i as int)).push(self.bytes@[i as int]));
            }
            i += 1;
        }
        proof {
            assert(self.bytes@.take(self.bytes@.len() as int) =~= self.bytes@);
        }
        hex_encode(&full)
    }

    /// Decodes the textual form; fails exactly when the text is not the
    /// hexadecimal of a DER-encoded key of the supported algorithm.
    pub fn from_text(s: &str) -> (r: Result<Self, DecodeError>)
        ensures
            match r {
                Ok(k) => parse_key_text(s@) == Some(k.bytes@) && k.wf(),
                Err(e) => parse_key_text(s@) is None && e == DecodeError::InvalidKey,
            },
    {
        let full = match hex_decode(s) {
            Some(v) => v,
            None => {
                return Err(DecodeError::InvalidKey);
            },
        };
        if full.len() != 44 {
            return Err(DecodeError::InvalidKey);
        }
        let prefix = der_prefix_bytes();
        let mut i: usize = 0;
        while i < 12
            invariant
                parse_hex(s@) == Some(full@),
                full@.len() == 44,
                prefix@ == der_prefix(),
                0 <= i <= 12,
                forall|j: int| 0 <= j < i ==> full@[j] == der_prefix()[j],
            decreases 12 - i,
        {
            if full[i] != prefix[i] {
                proof {
                    assert(full@.take(12)[i as int] == full@[i as int]);
                    assert(full@.take(12) != der_prefix());
                }
                return Err(DecodeError::InvalidKey);
            }
            i += 1;
        }
        proof {
            assert(full@.take(12) =~= der_prefix());
        }
        let mut raw: Vec<u8> = Vec::new();
        let mut j: usize = 12;
        while j < 44
            invariant
                parse_hex(s@) == Some(full@),
                full@.len() == 44,
                full@.take(12) == der_prefix(),
                12 <= j <= 44,
                raw@ == full@.subrange(12, j as int),
            decreases 44 - j,
        {
            raw.push(full[j]);
            proof {
                assert(full@.subrange(12, j + 1) =~= full@.subrange(12, j as int).push(
                    full@[j as int]));
            }
            j += 1;
        }
        proof {
            assert(full@.subrange(12, 44) =~= full@.skip(12));
        }
        Ok(PublicKey { bytes: raw })
    }
}

/// A composite capability: any `threshold` of the listed keys must sign.
#[derive(Debug, Clone, PartialEq, Eq)]
pub struct ThresholdKey {
    pub threshold: u32,
    pub keys: Vec<PublicKey>,
}

/// A key reference: one key, or a composite threshold structure.
#[derive(Debug, Clone, PartialEq, Eq)]
pub enum Key {
    Single(PublicKey),
    Threshold(ThresholdKey),
}

/// The mathematical shape of a key reference.
pub ghost enum KeyModel {
    Single(Seq<u8>),
    Threshold(u32, Seq<Seq<u8>>),
}

impl View for Key {
    type V = KeyModel;

    open spec fn view(&self) -> KeyModel {
        match self {
            Key::Single(pk) => KeyModel::Single(pk.bytes@),
            Key::Threshold(t) => KeyModel::Threshold(
                t.threshold,
                Seq::new(t.keys@.len(), |i: int| t.keys@[i].bytes@),
            ),
        }
    }
}

/// Whether every key of the model carries exactly 32 raw bytes.
pub open spec fn key_model_wf(k: KeyModel) -> bool {
    match k {
        KeyModel::Single(b) => b.len() == 32,
        KeyModel::Threshold(_, ks) => forall|i: int| 0 <= i < ks.len() ==> ks[i].len() == 32,
    }
}

/// The model of an optional key reference.
pub open spec fn opt_key_model(k: Option<Key>) -> Option<KeyModel> {
    match k {
        Some(kk) => Some(kk@),
        None => None,
    }
}

impl Key {
    /// Whether every key held carries exactly its 32 raw bytes.
    pub open spec fn wf(&self) -> bool {
        key_model_wf(self@)
    }

    /// A key reference over one public key.
    pub fn single(pk: PublicKey) -> (r: Self)
        ensures
            r@ == KeyModel::Single(pk.bytes@),
    {
        Key::Single(pk)
    }

    /// An equal key reference.
    pub fn duplicate(&self) -> (r: Self)
        ensures
            r@ == self@,
    {
        match self {
            Key::Single(pk) => Key::Single(PublicKey { bytes: crate::wire::copy_bytes(&pk.bytes) }),
            Key::Threshold(t) => {
                let mut keys: Vec<PublicKey> = Vec::new();
                let mut i: usize = 0;
                while i < t.keys.len()
                    invariant
                        0 <= i <= t.keys@.len(),
                        keys@.len() == i,
                        forall|j: int| 0 <= j < i ==> keys@[j].bytes@ == t.keys@[j].bytes@,
                    decreases t.keys@.len() - i,
                {
                    keys.push(PublicKey { bytes: crate::wire::copy_bytes(&t.keys[i].bytes) });
                    i += 1;
                }
                let tk = ThresholdKey { threshold: t.threshold, keys };
                proof {
                    assert(Seq::new(tk.keys@.len(), |i: int| tk.keys@[i].bytes@) =~= Seq::new(
                        t.keys@.len(),
                        |i: int| t.keys@[i].bytes@,
                    ));
                }
                Key::Threshold(tk)
            },
        }
    }
}

/// A duplicate of an optional key reference.
pub fn duplicate_opt_key(k: &Option<Key>) -> (r: Option<Key>)
    ensures
        opt_key_model(r) == opt_key_model(*k),
{
    match k {
        Some(kk) => Some(kk.duplicate()),
        None => None,
    }
}

} // verus!
