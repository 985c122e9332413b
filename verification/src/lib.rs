pub mod decode;
pub mod driver;
pub mod error;
pub mod instruction;
pub mod model;
pub mod opcode;
pub mod operand;
pub mod vm;

use crate::error::LoadError;
use vstd::prelude::*;

verus! {

/// The word that two bytes encode, low byte first.
pub open spec fn word_of_bytes(low: u8, high: u8) -> u16 {
    (low + 256 * high) as u16
}

/// The program a byte string encodes: 16-bit words, low byte first, one
/// after the other; as many as memory has cells at most.
pub open spec fn program_of_bytes(bytes: Seq<u8>) -> Result<Seq<u16>, LoadError> {
    if bytes.len() % 2 != 0 {
        Err(LoadError::OddLength)
    } else if bytes.len() / 2 > 32768 {
        Err(LoadError::TooLong)
    } else {
        Ok(Seq::new(bytes.len() / 2, |i: int| word_of_bytes(bytes[2 * i], bytes[2 * i + 1])))
    }
}

/// Turns the bytes of a program file into the words to load.
pub fn read_program(bytes: &[u8]) -> (res: Result<Vec<u16>, LoadError>)
    ensures
        res is Ok <==> program_of_bytes(bytes@) is Ok,
        res matches Ok(words) ==> program_of_bytes(bytes@) == Ok::<Seq<u16>, LoadError>(words@),
        res matches Err(e) ==> program_of_bytes(bytes@) == Err::<Seq<u16>, LoadError>(e),
{
    let n = bytes.len();
    if n % 2 != 0 {
        return Err(LoadError::OddLength);
    }
    let count = n / 2;
    if count > 32768 {
        return Err(LoadError::TooLong);
    }
    let mut words: Vec<u16> = Vec::with_capacity(count);
    let mut i: usize = 0;
    while i < count
        invariant
            i <= count,
            count == n / 2,
            n == bytes@.len(),
            n % 2 == 0,
            count <= 32768,
            words@.len() == i,
            forall|k: int| 0 <= k < i ==> #[trigger] words@[k] == word_of_bytes(bytes@[2 * k], bytes@[2 * k + 1]),
        decreases count - i,
    {
        let low: u16 = bytes[2 * i] as u16;
        let high: u16 = bytes[2 * i + 1] as u16;
        words.push(low + 256 * high);
        i += 1;
    }
    assert(words@ =~= program_of_bytes(bytes@)->Ok_0);
    Ok(words)
}

} // verus!
