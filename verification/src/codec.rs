//! The generic serialize/parse contract for TPM wire objects, and the
//! object types of the library that implement it.

use vstd::prelude::*;
use vstd::slice::slice_subrange;
use vstd::slice::slice_to_vec;

use crate::bytes::be16_bytes;
use crate::bytes::be16_of;
use crate::bytes::be32_bytes;
use crate::bytes::lemma_be16_extensive;
use crate::bytes::lemma_be16_round_trip;
use crate::bytes::lemma_be32_extensive;
use crate::bytes::lemma_be32_injective;
use crate::bytes::push_be16;
use crate::bytes::push_be32;
use crate::bytes::push_bytes;
use crate::bytes::read_be16;
use crate::bytes::read_be32;
use crate::error::TpmError;
use crate::message::TPM_MAX_COMMAND_SIZE;

verus! {

/// The serialize/parse contract for TPM wire objects.
///
/// An encoding is self-describing: `decode` reads one value back from the
/// front of a buffer and reports how many bytes it occupied, with no
/// external length prefix. `lemma_prefix_unique` makes encodings
/// unambiguous -- a buffer determines the value it begins with -- which
/// is what gives the object stack its round-trip and bulk-validation
/// properties.
pub trait TpmCodec: View + Sized {
    /// The value is well formed, that is, encodable at all.
    spec fn wf(&self) -> bool;

    /// The serialized wire bytes of the value.
    spec fn enc(&self) -> Seq<u8>;

    /// A well-formed value occupies at least one byte on the wire.
    proof fn lemma_enc_positive(x: Self)
        requires
            x.wf(),
        ensures
            0 < x.enc().len(),
    ;

    /// No two well-formed values can both begin the same buffer.
    proof fn lemma_prefix_unique(x: Self, y: Self, buf: Seq<u8>)
        requires
            x.wf(),
            y.wf(),
            x.enc().is_prefix_of(buf),
            y.enc().is_prefix_of(buf),
        ensures
            x.enc() == y.enc(),
            x@ == y@,
    ;

    /// Serializes the value, appending its encoding to `out`; fails
    /// exactly where the value is malformed or the result would exceed
    /// the command-size ceiling, leaving `out` unchanged.
    fn encode(&self, out: &mut Vec<u8>) -> (r: Result<(), TpmError>)
        ensures
            r is Ok <==> self.wf() && old(out)@.len() + self.enc().len() <= TPM_MAX_COMMAND_SIZE,
            r is Ok ==> final(out)@ == old(out)@ + self.enc(),
            r is Err ==> final(out)@ == old(out)@,
            r matches Err(e) ==> e == TpmError::InvalidData,
    ;

    /// Parses one value from the front of `bytes`, returning it with the
    /// number of bytes it occupied; succeeds exactly where `bytes` begins
    /// with the encoding of some well-formed value.
    fn decode(bytes: &[u8]) -> (r: Result<(Self, usize), TpmError>)
        ensures
            r matches Ok(p) ==> p.0.wf() && 0 < p.1 <= bytes@.len() && p.0.enc() == bytes@.subrange(
                0,
                p.1 as int,
            ),
            (exists|x: Self| x.wf() && (#[trigger] x.enc()).is_prefix_of(bytes@)) ==> r is Ok,
            r matches Err(e) ==> e == TpmError::InvalidData,
    ;
}

impl TpmCodec for u32 {
    /// Every 32-bit value is encodable.
    open spec fn wf(&self) -> bool {
        true
    }

    /// Four big-endian bytes.
    open spec fn enc(&self) -> Seq<u8> {
        be32_bytes(*self)
    }

    proof fn lemma_enc_positive(x: Self) {
    }

    proof fn lemma_prefix_unique(x: Self, y: Self, buf: Seq<u8>) {
        assert(x.enc() =~= buf.subrange(0, 4));
        assert(y.enc() =~= buf.subrange(0, 4));
        lemma_be32_injective(x, y);
    }

    fn encode(&self, out: &mut Vec<u8>) -> (r: Result<(), TpmError>) {
        if out.len() > TPM_MAX_COMMAND_SIZE - 4 {
            return Err(TpmError::InvalidData);
        }
        push_be32(out, *self);
        Ok(())
    }

    fn decode(bytes: &[u8]) -> (r: Result<(Self, usize), TpmError>) {
        if bytes.len() < 4 {
            proof {
                if exists|x: u32| x.wf() && (#[trigger] x.enc()).is_prefix_of(bytes@) {
                    let x = choose|x: u32| x.wf() && (#[trigger] x.enc()).is_prefix_of(bytes@);
                    assert(x.enc().len() == 4);
                    assert(false);
                }
            }
            return Err(TpmError::InvalidData);
        }
        let v = read_be32(bytes[0], bytes[1], bytes[2], bytes[3]);
        proof {
            lemma_be32_extensive(bytes@[0], bytes@[1], bytes@[2], bytes@[3]);
            assert(v.enc() =~= bytes@.subrange(0, 4));
        }
        Ok((v, 4))
    }
}

/// A sized TPM byte buffer: a 2-byte big-endian length followed by that
/// many payload bytes, the `TPM2B` wire shape.
#[derive(Clone, Debug, PartialEq, Eq)]
pub struct Tpm2b {
    /// The payload bytes; at most 0xFFFF of them are encodable.
    pub data: Vec<u8>,
}

impl Tpm2b {
    /// Returns a buffer holding the given payload.
    pub fn new(data: Vec<u8>) -> (r: Self)
        ensures
            r@ == data@,
    {
        Tpm2b { data }
    }
}

impl View for Tpm2b {
    type V = Seq<u8>;

    open spec fn view(&self) -> Seq<u8> {
        self.data@
    }
}

impl TpmCodec for Tpm2b {
    /// The payload length fits the 2-byte length field.
    open spec fn wf(&self) -> bool {
        self.data@.len() <= 0xFFFF
    }

    /// The 2-byte big-endian payload length, then the payload.
    open spec fn enc(&self) -> Seq<u8> {
        be16_bytes(self.data@.len() as u16) + self.data@
    }

    proof fn lemma_enc_positive(x: Self) {
    }

    proof fn lemma_prefix_unique(x: Self, y: Self, buf: Seq<u8>) {
        let lx = x.data@.len() as u16;
        let ly = y.data@.len() as u16;
        lemma_be16_round_trip(lx);
        lemma_be16_round_trip(ly);
        assert(x.enc()[0] == buf[0] && x.enc()[1] == buf[1]);
        assert(y.enc()[0] == buf[0] && y.enc()[1] == buf[1]);
        assert(be16_of(buf[0], buf[1]) == lx);
        assert(be16_of(buf[0], buf[1]) == ly);
        assert(x.data@.len() == y.data@.len());
        assert(x.data@ =~= y.data@) by {
            assert forall|i: int| 0 <= i < x.data@.len() implies x.data@[i] == y.data@[i] by {
                assert(x.enc()[2 + i] == buf[2 + i]);
                assert(y.enc()[2 + i] == buf[2 + i]);
            }
        };
        assert(x.enc() =~= y.enc());
    }

    fn encode(&self, out: &mut Vec<u8>) -> (r: Result<(), TpmError>) {
        if self.data.len() > 0xFFFF {
            return Err(TpmError::InvalidData);
        }
        if out.len() > TPM_MAX_COMMAND_SIZE - 2 || self.data.len() > TPM_MAX_COMMAND_SIZE - 2
            - out.len() {
            return Err(TpmError::InvalidData);
        }
        push_be16(out, self.data.len() as u16);
        push_bytes(out, self.data.as_slice());
        proof {
            assert(out@ =~= old(out)@ + self.enc());
        }
        Ok(())
    }

    fn decode(bytes: &[u8]) -> (r: Result<(Self, usize), TpmError>) {
        if bytes.len() < 2 {
            proof {
                if exists|x: Tpm2b| x.wf() && (#[trigger] x.enc()).is_prefix_of(bytes@) {
                    let x = choose|x: Tpm2b| x.wf() && (#[trigger] x.enc()).is_prefix_of(bytes@);
                    assert(x.enc().len() >= 2);
                    assert(false);
                }
            }
            return Err(TpmError::InvalidData);
        }
        let n = read_be16(bytes[0], bytes[1]) as usize;
        if bytes.len() - 2 < n {
            proof {
                if exists|x: Tpm2b| x.wf() && (#[trigger] x.enc()).is_prefix_of(bytes@) {
                    let x = choose|x: Tpm2b| x.wf() && (#[trigger] x.enc()).is_prefix_of(bytes@);
                    let lx = x.data@.len() as u16;
                    lemma_be16_round_trip(lx);
                    assert(x.enc()[0] == bytes@[0] && x.enc()[1] == bytes@[1]);
                    assert(be16_of(bytes@[0], bytes@[1]) == lx);
                    assert(x.enc().len() == 2 + n);
                    assert(x.enc().len() <= bytes@.len());
                    assert(false);
                }
            }
            return Err(TpmError::InvalidData);
        }
        let data = slice_to_vec(slice_subrange(bytes, 2, 2 + n));
        let result = Tpm2b { data };
        proof {
            lemma_be16_extensive(bytes@[0], bytes@[1]);
            assert(result.enc() =~= bytes@.subrange(0, 2 + n as int));
        }
        Ok((result, 2 + n))
    }
}

} // verus!
