//! The guest instruction fixture: a short real-address-mode sequence padded
//! with zero bytes to fill the code region.
use vstd::prelude::*;

verus! {

/// Size in bytes of the code region at the start of guest memory.
pub const CODE_SIZE: usize = 0x1000;

/// Size in bytes of the whole guest physical address space.
pub const MEM_SIZE: usize = 0x2000;

/// Value the fixture places in its first operand register.
pub const FIRST_OPERAND: u64 = 8;

/// Value the fixture places in its second operand register.
pub const SECOND_OPERAND: u64 = 2;

/// Value the fixture leaves in its result register when it halts.
pub const EXPECTED_RESULT: u64 = 0;

/// Number of encoded instruction bytes before the padding.
pub const INSTRUCTIONS_LEN: usize = 11;

/// The encoded instructions, in 16-bit mode:
/// `add ax, bx; cmp ax, 10; je +0; mov ax, 0; hlt`.
/// The conditional jump targets the instruction right after it, so both
/// outcomes of the comparison reach the same `mov` and `hlt`.
pub open spec fn instructions() -> Seq<u8> {
    seq![0x01u8, 0xd8u8, 0x83u8, 0xf8u8, 0x0au8, 0x74u8, 0x00u8, 0xb8u8, 0x00u8, 0x00u8, 0xf4u8]
}

/// The whole code region: the instructions, then zero bytes up to `CODE_SIZE`.
pub open spec fn code_region() -> Seq<u8> {
    instructions() + Seq::new((CODE_SIZE - INSTRUCTIONS_LEN) as nat, |i: int| 0u8)
}

/// The guest payload, exactly `CODE_SIZE` bytes long.
pub fn code() -> (r: Vec<u8>)
    ensures
        r@ == code_region(),
        r@.len() == CODE_SIZE,
{
    let mut v: Vec<u8> = vec![0x01u8, 0xd8u8, 0x83u8, 0xf8u8, 0x0au8, 0x74u8, 0x00u8, 0xb8u8, 0x00u8, 0x00u8, 0xf4u8];
    assert(v@ == instructions());
    while v.len() < CODE_SIZE
        invariant
            INSTRUCTIONS_LEN <= v@.len() <= CODE_SIZE,
            v@.subrange(0, INSTRUCTIONS_LEN as int) == instructions(),
            forall|i: int| INSTRUCTIONS_LEN <= i < v@.len() ==> v@[i] == 0u8,
        decreases CODE_SIZE - v@.len(),
    {
        let ghost prev = v@;
        v.push(0u8);
        assert(v@.subrange(0, INSTRUCTIONS_LEN as int) =~= prev.subrange(0, INSTRUCTIONS_LEN as int));
    }
    assert(v@ =~= code_region());
    v
}

} // verus!
