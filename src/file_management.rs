//! Object images: a big-endian origin word, then big-endian words placed
//! from the origin up. An odd final byte is the high byte of a last word
//! whose low byte is zero.
use vstd::prelude::*;
use crate::machine::{State, Vm, Errors, MEM_MAX};

verus! {

/// The load address: the first two bytes, big-endian.
pub open spec fn image_origin(b: Seq<u8>) -> int {
    b[0] * 0x100 + b[1]
}

/// Number of words after the origin word.
pub open spec fn image_len(b: Seq<u8>) -> int {
    (b.len() - 1) / 2
}

/// Word `k` after the origin word.
pub open spec fn image_word(b: Seq<u8>, k: int) -> u16 {
    let low: int = if 3 + 2 * k < b.len() { b[3 + 2 * k] as int } else { 0 };
    (b[2 + 2 * k] * 0x100 + low) as u16
}

/// Loading image `b` into `s`: fewer than two bytes is `BadFile`, words that
/// would run past the end of memory are `BadImageSize`; otherwise the words
/// replace memory from the origin up and nothing else changes.
pub open spec fn load_spec(s: Vm, b: Seq<u8>) -> Result<Vm, Errors> {
    if b.len() < 2 {
        Err(Errors::BadFile)
    } else if image_origin(b) + image_len(b) > MEM_MAX {
        Err(Errors::BadImageSize)
    } else {
        Ok(Vm {
            mem: Seq::new(
                MEM_MAX as nat,
                |a: int|
                    if image_origin(b) <= a < image_origin(b) + image_len(b) {
                        image_word(b, a - image_origin(b))
                    } else {
                        s.mem[a]
                    },
            ),
            ..s
        })
    }
}

/// Places the object image `bytes` in memory (see `load_spec`). On an error
/// the state is unchanged.
pub fn load_image(bytes: &[u8], state: &mut State) -> (r: Result<(), Errors>)
    requires
        old(state)@.wf(),
    ensures
        final(state)@.wf(),
        match r {
            Ok(()) => load_spec(old(state)@, bytes@) == Ok::<Vm, Errors>(final(state)@),
            Err(e) => load_spec(old(state)@, bytes@) == Err::<Vm, Errors>(e) && final(state)@ == old(state)@,
        },
{
    let read_amount = bytes.len();
    if read_amount < 2 {
        return Err(Errors::BadFile);
    }
    let origin: usize = bytes[0] as usize * 0x100 + bytes[1] as usize;
    let words: usize = (read_amount - 1) / 2;
    if origin + words > MEM_MAX {
        return Err(Errors::BadImageSize);
    }
    let ghost s0 = state@;
    let mut k: usize = 0;
    while k < words
        invariant
            state@.wf(),
            bytes@.len() == read_amount >= 2,
            origin == image_origin(bytes@),
            words == image_len(bytes@),
            origin + words <= MEM_MAX,
            k <= words,
            state@ == (Vm { mem: state@.mem, ..s0 }),
            forall|a: int|
                0 <= a < MEM_MAX ==> #[trigger] state@.mem[a] == if origin <= a < origin + k {
                    image_word(bytes@, a - origin)
                } else {
                    s0.mem[a]
                },
        decreases words - k,
    {
        let buffer_offset = 2 + 2 * k;
        let high = bytes[buffer_offset] as u16;
        let low: u16 = if buffer_offset + 1 < read_amount {
            bytes[buffer_offset + 1] as u16
        } else {
            0
        };
        state.memory_write(origin + k, high * 0x100 + low);
        k = k + 1;
    }
    proof {
        if let Ok(v) = load_spec(s0, bytes@) {
            assert(state@.mem =~= v.mem);
        }
    }
    Ok(())
}

} // verus!
