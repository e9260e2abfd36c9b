//! Words as the bytes that the device reads.
use vstd::endian::{endianness, Endian};
use vstd::prelude::*;

verus! {

/// The bytes spell the word, lowest byte first.
pub open spec fn little_endian(bytes: Seq<u8>, word: u32) -> bool {
    bytes.len() == 4 && word == bytes[0] + 0x100 * bytes[1] + 0x1_0000 * bytes[2] + 0x100_0000
        * bytes[3]
}

/// The bytes spell the word, highest byte first.
pub open spec fn big_endian(bytes: Seq<u8>, word: u32) -> bool {
    bytes.len() == 4 && word == bytes[3] + 0x100 * bytes[2] + 0x1_0000 * bytes[1] + 0x100_0000
        * bytes[0]
}

/// The bytes spell the word in the order of the machine.
pub open spec fn machine_order(bytes: Seq<u8>, word: u32) -> bool {
    match endianness() {
        Endian::Little => little_endian(bytes, word),
        Endian::Big => big_endian(bytes, word),
    }
}

/// Calls `bytemuck::bytes_of`: the four bytes of the word as they lie in
/// memory, which is in the order of the machine.
#[verifier::external_body]
fn bytes_of(word: u32) -> (bytes: Vec<u8>)
    ensures
        machine_order(bytes@, word),
{
    bytemuck::bytes_of(&word).to_vec()
}

/// The four bytes of a word in the order of the machine.
pub fn word_bytes(word: u32) -> (bytes: [u8; 4])
    ensures
        machine_order(bytes@, word),
{
    let memory = bytes_of(word);
    let bytes = [memory[0], memory[1], memory[2], memory[3]];
    assert(bytes@ =~= memory@);
    bytes
}

/// The four bytes are the digits of the word to the base 256, the lowest first
/// on a little-endian machine and last on a big-endian one.
pub proof fn law_bytes_are_the_digits_of_the_word(bytes: Seq<u8>, word: u32)
    requires
        machine_order(bytes, word),
    ensures
        bytes.len() == 4,
        endianness() is Little ==> word == bytes[0] + 256 * (bytes[1] + 256 * (bytes[2] + 256
            * bytes[3])),
        endianness() is Big ==> word == bytes[3] + 256 * (bytes[2] + 256 * (bytes[1] + 256
            * bytes[0])),
{
}

/// Words with the same bytes are the same.
pub proof fn law_bytes_tell_words_apart(bytes: Seq<u8>, first: u32, second: u32)
    requires
        machine_order(bytes, first),
        machine_order(bytes, second),
    ensures
        first == second,
{
}

} // verus!
