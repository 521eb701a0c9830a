//! The object stack: a LIFO sequence of serialized TPM objects held as one
//! flat byte buffer with no gaps or overlaps, the most recently pushed
//! object at the lowest offset.

use vstd::prelude::*;
use vstd::slice::slice_subrange;
use vstd::slice::slice_to_vec;

use crate::codec::TpmCodec;
use crate::error::TpmError;
use crate::message::TPM_MAX_COMMAND_SIZE;

verus! {

/// The concatenated encodings of a sequence of objects.
pub open spec fn concat_encs<T: TpmCodec>(items: Seq<T>) -> Seq<u8>
    decreases items.len(),
{
    if items.len() == 0 {
        Seq::empty()
    } else {
        items[0].enc() + concat_encs(items.skip(1))
    }
}

/// Every object of the sequence is well formed.
pub open spec fn all_wf<T: TpmCodec>(items: Seq<T>) -> bool {
    forall|i: int| 0 <= i < items.len() ==> (#[trigger] items[i]).wf()
}

/// `b` is exactly a back-to-back concatenation of the encodings of zero or
/// more well-formed objects, with nothing left over.
pub open spec fn is_concat_of<T: TpmCodec>(b: Seq<u8>) -> bool {
    exists|items: Seq<T>| all_wf(items) && #[trigger] concat_encs(items) == b
}

/// Appending one object to a sequence appends its encoding.
proof fn lemma_concat_encs_push<T: TpmCodec>(items: Seq<T>, x: T)
    ensures
        concat_encs(items.push(x)) == concat_encs(items) + x.enc(),
    decreases items.len(),
{
    let p = items.push(x);
    assert(p.len() == items.len() + 1);
    if items.len() == 0 {
        assert(p[0] == x);
        assert(p.skip(1) =~= Seq::<T>::empty());
        assert(concat_encs(p) == x.enc() + concat_encs(p.skip(1)));
        assert(concat_encs(p.skip(1)) == Seq::<u8>::empty());
        assert(concat_encs(items) == Seq::<u8>::empty());
        assert(concat_encs(p) =~= concat_encs(items) + x.enc());
    } else {
        assert(p[0] == items[0]);
        assert(p.skip(1) =~= items.skip(1).push(x));
        lemma_concat_encs_push(items.skip(1), x);
        assert(concat_encs(p) == items[0].enc() + concat_encs(p.skip(1)));
        assert(concat_encs(p.skip(1)) == concat_encs(items.skip(1)) + x.enc());
        assert(concat_encs(items) == items[0].enc() + concat_encs(items.skip(1)));
        assert(concat_encs(p) =~= concat_encs(items) + x.enc());
    }
}

/// A buffer that extends a partial concatenation and is itself a full
/// concatenation has a remainder that is a full concatenation too.
proof fn lemma_concat_remainder<T: TpmCodec>(items: Seq<T>, b: Seq<u8>)
    requires
        all_wf(items),
        concat_encs(items).is_prefix_of(b),
        is_concat_of::<T>(b),
    ensures
        is_concat_of::<T>(b.skip(concat_encs(items).len() as int)),
    decreases items.len(),
{
    if items.len() == 0 {
        assert(b.skip(0) =~= b);
    } else {
        let full = choose|full: Seq<T>| all_wf(full) && #[trigger] concat_encs(full) == b;
        let x = items[0];
        assert(x.wf());
        let rest = concat_encs(items.skip(1));
        assert(concat_encs(items) == x.enc() + rest);
        assert(x.enc().is_prefix_of(b)) by {
            assert(x.enc() =~= (x.enc() + rest).subrange(0, x.enc().len() as int));
            assert((x.enc() + rest).subrange(0, x.enc().len() as int) =~= b.subrange(
                0,
                x.enc().len() as int,
            ));
        };
        if full.len() == 0 {
            assert(b.len() == 0);
            T::lemma_enc_positive(x);
            assert(false);
        }
        let y = full[0];
        assert(y.wf());
        let yrest = concat_encs(full.skip(1));
        assert(concat_encs(full) == y.enc() + yrest);
        assert(y.enc().is_prefix_of(b)) by {
            assert(y.enc() =~= (y.enc() + yrest).subrange(0, y.enc().len() as int));
        };
        T::lemma_prefix_unique(x, y, b);
        let l = x.enc().len() as int;
        assert(concat_encs(full.skip(1)) =~= b.skip(l)) by {
            assert(b == y.enc() + yrest);
        };
        assert(all_wf(full.skip(1))) by {
            assert(forall|i: int|
                0 <= i < full.skip(1).len() ==> (#[trigger] full.skip(1)[i]) == full[i + 1]);
        };
        assert(is_concat_of::<T>(b.skip(l)));
        assert(all_wf(items.skip(1))) by {
            assert(forall|i: int|
                0 <= i < items.skip(1).len() ==> (#[trigger] items.skip(1)[i]) == items[i + 1]);
        };
        assert(concat_encs(items.skip(1)).is_prefix_of(b.skip(l))) by {
            assert(concat_encs(items).len() <= b.len());
            assert(rest =~= concat_encs(items).skip(l));
            assert forall|i: int| 0 <= i < rest.len() implies rest[i] == b.skip(l)[i] by {
                assert(concat_encs(items)[l + i] == b[l + i]);
            }
            assert(rest =~= b.skip(l).subrange(0, rest.len() as int));
        };
        lemma_concat_remainder(items.skip(1), b.skip(l));
        assert(b.skip(l).skip(rest.len() as int) =~= b.skip(concat_encs(items).len() as int));
    }
}

/// A stack of TPM objects, represented as a raw byte buffer.
#[derive(Clone, Debug, PartialEq)]
pub struct TpmStack {
    stack: Vec<u8>,
}

impl View for TpmStack {
    type V = Seq<u8>;

    closed spec fn view(&self) -> Seq<u8> {
        self.stack@
    }
}

impl Default for TpmStack {
    /// Returns an empty stack.
    fn default() -> (r: Self)
        ensures
            r@ == Seq::<u8>::empty(),
    {
        TpmStack { stack: Vec::new() }
    }
}

impl TpmStack {
    /// Creates a `TpmStack` directly from a vector of bytes, unvalidated.
    pub fn from_vec(bytes: Vec<u8>) -> (r: Self)
        ensures
            r@ == bytes@,
    {
        TpmStack { stack: bytes }
    }

    /// Validates a byte slice and creates a `TpmStack` from it.
    ///
    /// The slice must be exactly a back-to-back sequence of parsable `T`
    /// encodings: any parse failure before exhaustion, or leftover bytes,
    /// is a hard error.
    pub fn from_bytes<T: TpmCodec>(bytes: &[u8]) -> (r: Result<TpmStack, TpmError>)
        ensures
            r is Ok <==> is_concat_of::<T>(bytes@),
            r matches Ok(s) ==> s@ == bytes@,
            r matches Err(e) ==> e == TpmError::InvalidData,
    {
        let ghost mut items: Seq<T> = Seq::empty();
        let mut i: usize = 0;
        while i < bytes.len()
            invariant
                i <= bytes@.len(),
                all_wf(items),
                concat_encs(items) == bytes@.take(i as int),
            decreases bytes@.len() - i,
        {
            let tail = slice_subrange(bytes, i, bytes.len());
            match T::decode(tail) {
                Ok(pair) => {
                    let n = pair.1;
                    proof {
                        let x = pair.0;
                        lemma_concat_encs_push(items, x);
                        assert(all_wf(items.push(x))) by {
                            assert(forall|k: int|
                                0 <= k < items.len() ==> (#[trigger] items.push(x)[k])
                                    == items[k]);
                        };
                        assert(concat_encs(items) + x.enc() =~= bytes@.take(i as int + n as int))
                            by {
                            assert(x.enc() =~= bytes@.subrange(i as int, i + n));
                        };
                        items = items.push(x);
                    }
                    i = i + n;
                },
                Err(_) => {
                    proof {
                        if is_concat_of::<T>(bytes@) {
                            assert(concat_encs(items).is_prefix_of(bytes@)) by {
                                assert(bytes@.take(i as int) =~= bytes@.subrange(0, i as int));
                            };
                            lemma_concat_remainder(items, bytes@);
                            let rem = bytes@.skip(i as int);
                            assert(is_concat_of::<T>(rem));
                            let full = choose|full: Seq<T>|
                                all_wf(full) && #[trigger] concat_encs(full) == rem;
                            assert(full.len() > 0);
                            let y = full[0];
                            assert(y.wf());
                            assert(y.enc().is_prefix_of(rem)) by {
                                assert(concat_encs(full) == y.enc() + concat_encs(full.skip(1)));
                                assert(y.enc() =~= rem.subrange(0, y.enc().len() as int));
                            };
                            assert(tail@ == rem);
                            assert(false);
                        }
                    }
                    return Err(TpmError::InvalidData);
                },
            }
        }
        proof {
            assert(bytes@.take(bytes@.len() as int) =~= bytes@);
            assert(is_concat_of::<T>(bytes@));
        }
        Ok(TpmStack { stack: slice_to_vec(bytes) })
    }

    /// Returns the stack as a byte slice, verbatim.
    pub fn to_bytes(&self) -> (r: &[u8])
        ensures
            r@ == self@,
    {
        self.stack.as_slice()
    }

    /// Pushes a TPM object onto the top of the stack.
    ///
    /// The object is serialized, and its byte representation is prepended
    /// to the stack; a serialization that would exceed the command-size
    /// ceiling is a hard error that leaves the stack unchanged.
    pub fn push<T: TpmCodec>(&mut self, object: &T) -> (r: Result<(), TpmError>)
        ensures
            r is Ok <==> object.wf() && object.enc().len() <= TPM_MAX_COMMAND_SIZE,
            r is Ok ==> final(self)@ == object.enc() + old(self)@,
            r is Err ==> final(self)@ == old(self)@,
            r matches Err(e) ==> e == TpmError::InvalidData,
    {
        let mut buffer: Vec<u8> = Vec::new();
        match object.encode(&mut buffer) {
            Ok(_) => {
                buffer.append(&mut self.stack);
                self.stack = buffer;
                Ok(())
            },
            Err(e) => Err(e),
        }
    }

    /// Pops a TPM object from the top of the stack.
    ///
    /// The raw bytes are parsed into an object of type `T`, and exactly
    /// the consumed bytes are removed from the stack. An empty stack is a
    /// `Boundary` error; a parse failure leaves the stack unchanged.
    pub fn pop<T: TpmCodec>(&mut self) -> (r: Result<T, TpmError>)
        ensures
            r matches Ok(x) ==> x.wf() && x.enc().is_prefix_of(old(self)@) && final(self)@
                == old(self)@.skip(x.enc().len() as int),
            r is Err ==> final(self)@ == old(self)@,
            r matches Err(e) ==> (e == TpmError::Boundary <==> old(self)@.len() == 0),
            (exists|x: T| x.wf() && (#[trigger] x.enc()).is_prefix_of(old(self)@)) ==> r is Ok,
    {
        if self.stack.len() == 0 {
            proof {
                if exists|x: T| x.wf() && (#[trigger] x.enc()).is_prefix_of(self.stack@) {
                    let x = choose|x: T| x.wf() && (#[trigger] x.enc()).is_prefix_of(self.stack@);
                    T::lemma_enc_positive(x);
                    assert(false);
                }
            }
            return Err(TpmError::Boundary);
        }
        match T::decode(self.stack.as_slice()) {
            Ok(pair) => {
                let n = pair.1;
                let rest = slice_to_vec(slice_subrange(self.stack.as_slice(), n, self.stack.len()));
                self.stack = rest;
                proof {
                    assert(pair.0.enc().is_prefix_of(old(self)@)) by {
                        assert(pair.0.enc() =~= old(self)@.subrange(0, pair.0.enc().len() as int));
                    };
                }
                Ok(pair.0)
            },
            Err(e) => Err(e),
        }
    }
}

/// Round trip of the object stack: a pop right after a push of `x` parses
/// back a value with `x`'s view and encoding, and removes exactly the
/// pushed bytes, so the buffer is `below` again and its length shrank by
/// exactly the length of the encoding.
pub proof fn lemma_push_pop_round_trip<T: TpmCodec>(x: T, y: T, below: Seq<u8>)
    requires
        x.wf(),
        y.wf(),
        y.enc().is_prefix_of(x.enc() + below),
    ensures
        y@ == x@,
        y.enc() == x.enc(),
        (x.enc() + below).skip(y.enc().len() as int) == below,
{
    assert(x.enc().is_prefix_of(x.enc() + below)) by {
        assert(x.enc() =~= (x.enc() + below).subrange(0, x.enc().len() as int));
    };
    T::lemma_prefix_unique(x, y, x.enc() + below);
    assert((x.enc() + below).skip(x.enc().len() as int) =~= below);
}

} // verus!
