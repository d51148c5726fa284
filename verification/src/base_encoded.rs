//! A value paired with the base it is written in as text, and the encoder
//! that writes and reads that text.
use core::marker::PhantomData;
use vstd::prelude::*;

use crate::base::Base;
use crate::base_encoder::{BaseEncoder, MultibaseEncoder};
use crate::error::Error;
use crate::varbytes::{
    is_varbytes_error, lemma_varbytes_roundtrip, varbytes_decoding, varbytes_encoding, Varbytes,
    MAX_DECODED_SIZE,
};

verus! {

/// A value together with the base used to write it as text by the encoder
/// `Enc`.
#[derive(PartialEq, Eq)]
pub struct BaseEncoded<T, Enc = MultibaseEncoder> {
    base: Base,
    t: T,
    enc: PhantomData<Enc>,
}

/// type alias for a Varbytes base encoded to/from string
pub type EncodedVarbytes = BaseEncoded<Varbytes>;

impl<T, Enc> BaseEncoded<T, Enc> {
    /// The base of the text form.
    pub closed spec fn spec_base(&self) -> Base {
        self.base
    }

    /// The wrapped value.
    pub closed spec fn spec_value(&self) -> T {
        self.t
    }

    /// Pair `t` with the base `base`.
    pub fn new(base: Base, t: T) -> (r: Self)
        ensures
            r.spec_base() == base,
            r.spec_value() == t,
    {
        BaseEncoded { base, t, enc: PhantomData }
    }

    /// The base of the text form.
    pub fn base(&self) -> (r: Base)
        ensures
            r == self.spec_base(),
    {
        self.base
    }

    /// The wrapped value.
    pub fn value(&self) -> (r: &T)
        ensures
            *r == self.spec_value(),
    {
        &self.t
    }
}

impl Varbytes {
    /// create an encoded varbytes
    pub fn encoded_new(base: Base, v: Vec<u8>) -> (r: EncodedVarbytes)
        ensures
            r.spec_base() == base,
            r.spec_value()@ == v@,
    {
        BaseEncoded::new(base, Varbytes::new(v))
    }
}

/// What reading the text `s` of an encoded varbytes with the encoder `Enc`
/// gives: the base the encoder reads, and the payload of the varbytes whose
/// wire form the decoded bytes start with.
pub open spec fn varbytes_text_reading<Enc: BaseEncoder>(s: Seq<char>) -> Option<(Base, Seq<u8>)> {
    match Enc::spec_decoded(s) {
        Some((base, bytes)) => match varbytes_decoding(bytes, MAX_DECODED_SIZE as nat) {
            Some((data, _)) => Some((base, data)),
            None => None,
        },
        None => None,
    }
}

impl<Enc: BaseEncoder> BaseEncoded<Varbytes, Enc> {
    /// The text: the wire form of the bytes written by `Enc` in the base.
    /// When the encoder's text in this base reads back and the bytes are
    /// within the default cap, reading the text gives the encoder's
    /// preferred base for it and the same bytes.
    pub fn to_string(&self) -> (r: String)
        ensures
            r@ == Enc::spec_encoded(self.spec_base(), varbytes_encoding(self.spec_value()@)),
            Enc::spec_reversible(self.spec_base()) && self.spec_value()@.len() <= MAX_DECODED_SIZE
                ==> varbytes_text_reading::<Enc>(r@) == Some(
                (Enc::spec_preferred(self.spec_base()), self.spec_value()@),
            ),
    {
        let bytes = self.t.encode_into();
        let r = Enc::to_base_encoded(self.base, bytes.as_slice());
        proof {
            if self.spec_value()@.len() <= MAX_DECODED_SIZE {
                lemma_varbytes_roundtrip(self.spec_value()@, Seq::<u8>::empty(), MAX_DECODED_SIZE as nat);
                assert(varbytes_encoding(self.spec_value()@) + Seq::<u8>::empty()
                    =~= varbytes_encoding(self.spec_value()@));
            }
        }
        r
    }

    /// Read the text `s` with `Enc`: the base it reads, and the varbytes whose
    /// wire form the decoded bytes start with (bytes after it are ignored).
    pub fn try_from_str(s: &str) -> (r: Result<Self, Error>)
        ensures
            match r {
                Ok(ev) => varbytes_text_reading::<Enc>(s@) == Some((ev.spec_base(), ev.spec_value()@)),
                Err(e) => {
                    &&& varbytes_text_reading::<Enc>(s@) is None
                    &&& Enc::spec_decoded(s@) matches Some((_, bytes)) ==> is_varbytes_error(
                        e,
                        bytes,
                        MAX_DECODED_SIZE,
                    )
                },
            },
    {
        let decoded = Enc::from_base_encoded(s)?;
        let (base, bytes) = &decoded[0];
        let v = Varbytes::try_from(bytes.as_slice())?;
        Ok(BaseEncoded::new(*base, v))
    }
}

} // verus!
