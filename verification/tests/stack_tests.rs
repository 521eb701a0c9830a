use tpm2_call::Tpm2b;
use tpm2_call::TpmError;
use tpm2_call::TpmStack;

#[test]
fn default_stack_is_empty() {
    let stack = TpmStack::default();
    assert!(stack.to_bytes().is_empty());
}

#[test]
fn from_vec_to_bytes_identity() {
    let stack = TpmStack::from_vec(vec![1, 2, 3, 4]);
    assert_eq!(stack.to_bytes(), &[1, 2, 3, 4]);
}

#[test]
fn push_pop_u32_round_trip() {
    let mut stack = TpmStack::default();
    stack.push(&0xDEAD_BEEFu32).unwrap();
    assert_eq!(stack.to_bytes().len(), 4);
    let back: u32 = stack.pop().unwrap();
    assert_eq!(back, 0xDEAD_BEEF);
    assert!(stack.to_bytes().is_empty());
}

#[test]
fn push_prepends_encoding() {
    let mut stack = TpmStack::from_vec(vec![9, 9]);
    stack.push(&0x0102_0304u32).unwrap();
    assert_eq!(stack.to_bytes(), &[1, 2, 3, 4, 9, 9]);
}

#[test]
fn push_pop_buffer_round_trip() {
    let mut stack = TpmStack::default();
    let x = Tpm2b::new(vec![1, 2, 3]);
    stack.push(&x).unwrap();
    assert_eq!(stack.to_bytes(), &[0, 3, 1, 2, 3]);
    let back: Tpm2b = stack.pop().unwrap();
    assert_eq!(back, x);
    assert!(stack.to_bytes().is_empty());
}

#[test]
fn pop_shrinks_by_exactly_the_encoding() {
    let mut stack = TpmStack::from_vec(vec![0, 1, 0xAA, 0xFF, 0xFF]);
    let before = stack.to_bytes().len();
    let popped: Tpm2b = stack.pop().unwrap();
    assert_eq!(popped, Tpm2b::new(vec![0xAA]));
    assert_eq!(stack.to_bytes().len(), before - 3);
    assert_eq!(stack.to_bytes(), &[0xFF, 0xFF]);
}

#[test]
fn pop_is_lifo() {
    let mut stack = TpmStack::default();
    stack.push(&0x11u32).unwrap();
    stack.push(&0x22u32).unwrap();
    let first: u32 = stack.pop().unwrap();
    let second: u32 = stack.pop().unwrap();
    assert_eq!(first, 0x22);
    assert_eq!(second, 0x11);
}

#[test]
fn pop_empty_is_boundary() {
    let mut stack = TpmStack::default();
    let r: Result<u32, TpmError> = stack.pop();
    assert_eq!(r, Err(TpmError::Boundary));
}

#[test]
fn pop_malformed_leaves_stack_unchanged() {
    // a sized buffer declaring 5 payload bytes but holding only 1
    let mut stack = TpmStack::from_vec(vec![0, 5, 0xAA]);
    let r: Result<Tpm2b, TpmError> = stack.pop();
    assert_eq!(r, Err(TpmError::InvalidData));
    assert_eq!(stack.to_bytes(), &[0, 5, 0xAA]);
}

#[test]
fn push_over_ceiling_rejected() {
    let mut stack = TpmStack::default();
    let big = Tpm2b::new(vec![0u8; 5000]);
    assert_eq!(stack.push(&big), Err(TpmError::InvalidData));
    assert!(stack.to_bytes().is_empty());
}

#[test]
fn from_bytes_accepts_exact_concatenation() {
    let bytes = [0, 0, 0, 0x11, 0, 0, 0, 0x12];
    let stack = TpmStack::from_bytes::<u32>(&bytes).unwrap();
    assert_eq!(stack.to_bytes(), &bytes);
}

#[test]
fn from_bytes_accepts_empty() {
    let stack = TpmStack::from_bytes::<u32>(&[]).unwrap();
    assert!(stack.to_bytes().is_empty());
}

#[test]
fn from_bytes_rejects_truncated_tail() {
    // the last encoding is one byte short
    let bytes = [0, 0, 0, 0x11, 0, 0, 0x12];
    assert_eq!(TpmStack::from_bytes::<u32>(&bytes), Err(TpmError::InvalidData));
}

#[test]
fn from_bytes_rejects_one_extra_byte() {
    let bytes = [0, 0, 0, 0x11, 0, 0, 0, 0x12, 0xAA];
    assert_eq!(TpmStack::from_bytes::<u32>(&bytes), Err(TpmError::InvalidData));
}

#[test]
fn from_bytes_buffers_self_describing() {
    // two sized buffers back to back: [0xAA] then []
    let bytes = [0, 1, 0xAA, 0, 0];
    let stack = TpmStack::from_bytes::<Tpm2b>(&bytes).unwrap();
    assert_eq!(stack.to_bytes(), &bytes);
    // truncating the trailing empty buffer's length field fails
    assert_eq!(TpmStack::from_bytes::<Tpm2b>(&[0, 1, 0xAA, 0]), Err(TpmError::InvalidData));
}

#[test]
fn from_bytes_then_pop_each_object() {
    let bytes = [0, 2, 7, 8, 0, 1, 9];
    let mut stack = TpmStack::from_bytes::<Tpm2b>(&bytes).unwrap();
    let first: Tpm2b = stack.pop().unwrap();
    let second: Tpm2b = stack.pop().unwrap();
    assert_eq!(first, Tpm2b::new(vec![7, 8]));
    assert_eq!(second, Tpm2b::new(vec![9]));
    assert!(stack.to_bytes().is_empty());
}
