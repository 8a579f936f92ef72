//! Handing argument text to Strobe, which takes C strings.

use vstd::prelude::*;
use vstd::string::StringSliceAdditionalSpecFns;

verus! {

/// The C string of `text`: each of its UTF-8 bytes as a C `char`, then a
/// terminating zero.
pub fn c_chars(text: &str) -> (r: Vec<i8>)
    ensures
        r@.len() == text.spec_bytes().len() + 1,
        forall|i: int| 0 <= i < text.spec_bytes().len() ==> r@[i] == text.spec_bytes()[i] as i8,
        r@[text.spec_bytes().len() as int] == 0,
{
    let bytes = text.as_bytes();
    let mut out: Vec<i8> = Vec::new();
    let mut i: usize = 0;
    while i < bytes.len()
        invariant
            bytes@ == text.spec_bytes(),
            i <= bytes@.len(),
            out@.len() == i,
            forall|j: int| 0 <= j < i ==> out@[j] == bytes@[j] as i8,
        decreases bytes.len() - i,
    {
        out.push(bytes[i] as i8);
        i = i + 1;
    }
    out.push(0);
    out
}

} // verus!
