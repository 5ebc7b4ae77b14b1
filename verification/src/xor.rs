//! The repeating-key XOR transform.

use vstd::prelude::*;

verus! {

/// `data` with each byte XORed with the key byte at the same position, the
/// key repeated as often as needed.
pub open spec fn xor_spec(data: Seq<u8>, key: Seq<u8>) -> Seq<u8> {
    Seq::new(data.len(), |i: int| data[i] ^ key[i % key.len() as int])
}

/// XORs `data` with `key`, repeating the key over the length of the data.
///
/// The key may be empty only where the data is.
pub fn xor_operation(data: &[u8], key: &[u8]) -> (output: Vec<u8>)
    requires
        data@.len() == 0 || key@.len() > 0,
    ensures
        output@ == xor_spec(data@, key@),
{
    let mut output: Vec<u8> = Vec::with_capacity(data.len());
    let mut index: usize = 0;
    while index < data.len()
        invariant
            index <= data@.len(),
            key@.len() > 0 || data@.len() == 0,
            output@.len() == index,
            forall|i: int| 0 <= i < index ==> output@[i] == data@[i] ^ key@[i % key@.len() as int],
        decreases data@.len() - index,
    {
        output.push(data[index] ^ key[index % key.len()]);
        index += 1;
    }
    assert(output@ =~= xor_spec(data@, key@));
    output
}

/// XOR with the same key is its own inverse: applying the transform twice
/// gives the data back.
pub proof fn lemma_xor_twice_restores(data: Seq<u8>, key: Seq<u8>)
    ensures
        xor_spec(xor_spec(data, key), key) == data,
{
    let once = xor_spec(data, key);
    let twice = xor_spec(once, key);
    assert forall|i: int| 0 <= i < data.len() implies twice[i] == data[i] by {
        let d = data[i];
        let k = key[i % key.len() as int];
        assert((d ^ k) ^ k == d) by (bit_vector);
    }
    assert(twice =~= data);
}

} // verus!
