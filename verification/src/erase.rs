//! Wiping plaintext once it is no longer needed.

use vstd::prelude::*;
use crate::generator::GeneratedPassword;
use zeroize::Zeroize;

verus! {

/// `zeroize` on a `String` overwrites every byte of the buffer with zero,
/// its spare capacity included, and leaves the string empty.
pub assume_specification[ <String as zeroize::Zeroize>::zeroize ](buffer: &mut String)
    ensures
        final(buffer)@ == Seq::<char>::empty(),
;

/// Whether a buffer holds nothing but zero bytes.
pub open spec fn is_erased(buffer: Seq<char>) -> bool {
    forall|i: int| 0 <= i < buffer.len() ==> #[trigger] buffer[i] == '\0'
}

/// Wipes the plaintext of every password.
pub fn erase_all(passwords: &mut Vec<GeneratedPassword>)
    ensures
        final(passwords)@.len() == old(passwords)@.len(),
        forall|i: int|
            0 <= i < final(passwords)@.len() ==> {
                &&& (#[trigger] final(passwords)@[i]).plaintext@ == Seq::<char>::empty()
                &&& is_erased(final(passwords)@[i].plaintext@)
                &&& final(passwords)@[i].score_bits == old(passwords)@[i].score_bits
            },
{
    let n = passwords.len();
    let mut k: usize = 0;
    while k < n
        invariant
            k <= n,
            n == passwords@.len(),
            n == old(passwords)@.len(),
            forall|i: int|
                0 <= i < n ==> (#[trigger] passwords@[i]).score_bits == old(
                    passwords,
                )@[i].score_bits,
            forall|i: int|
                0 <= i < k ==> (#[trigger] passwords@[i]).plaintext@ == Seq::<char>::empty(),
        decreases n - k,
    {
        passwords[k].plaintext.zeroize();
        k = k + 1;
    }
}

} // verus!
