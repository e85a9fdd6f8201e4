//! The digest type shared by the hash functions: four field elements,
//! serialized as 32 bytes.

use crate::field::{
    decode_element, encode_element, lemma_element_round_trip, lemma_view_injective, modulus,
    residue, values, Fp,
};
use crate::traits::Digest;
use vstd::prelude::*;

verus! {

/// The number of field elements in a digest.
pub const DIGEST_SIZE: usize = 4;

/// The encoding of four digest elements: eight bytes each, least significant
/// byte first, in the order of the elements.
pub open spec fn encode_elements(elements: Seq<int>) -> Seq<u8> {
    encode_element(elements[0]) + encode_element(elements[1]) + encode_element(elements[2])
        + encode_element(elements[3])
}

/// The four elements that 32 bytes spell; `None` where one of them is not a
/// canonical representative.
pub open spec fn decode_elements(bytes: Seq<u8>) -> Option<Seq<int>> {
    let e0 = decode_element(bytes.subrange(0, 8));
    let e1 = decode_element(bytes.subrange(8, 16));
    let e2 = decode_element(bytes.subrange(16, 24));
    let e3 = decode_element(bytes.subrange(24, 32));
    if e0.is_some() && e1.is_some() && e2.is_some() && e3.is_some() {
        Some(seq![e0.unwrap(), e1.unwrap(), e2.unwrap(), e3.unwrap()])
    } else {
        None
    }
}

/// Whether a sequence holds four canonical representatives.
pub open spec fn digest_elements(elements: Seq<int>) -> bool {
    &&& elements.len() == 4
    &&& forall|i: int| 0 <= i < 4 ==> 0 <= #[trigger] elements[i] < modulus()
}

/// Decoding the encoding of the elements of a digest gives them back.
pub proof fn lemma_digest_round_trip(elements: Seq<int>)
    requires
        digest_elements(elements),
    ensures
        encode_elements(elements).len() == 32,
        decode_elements(encode_elements(elements)) == Some(elements),
{
    let bytes = encode_elements(elements);
    lemma_element_round_trip(elements[0]);
    lemma_element_round_trip(elements[1]);
    lemma_element_round_trip(elements[2]);
    lemma_element_round_trip(elements[3]);
    assert(bytes.subrange(0, 8) =~= encode_element(elements[0]));
    assert(bytes.subrange(8, 16) =~= encode_element(elements[1]));
    assert(bytes.subrange(16, 24) =~= encode_element(elements[2]));
    assert(bytes.subrange(24, 32) =~= encode_element(elements[3]));
    assert(decode_elements(bytes).unwrap() =~= elements);
}

/// A digest of four field elements.
#[derive(Clone, Copy, Debug, PartialEq, Eq)]
pub struct ElementDigest {
    elements: [Fp; 4],
}

impl View for ElementDigest {
    type V = Seq<int>;

    closed spec fn view(&self) -> Seq<int> {
        values(self.elements@)
    }
}

impl Default for ElementDigest {
    fn default() -> (digest: ElementDigest)
        ensures
            digest@ == seq![0int, 0int, 0int, 0int],
    {
        let zero = Fp::zero();
        let digest = ElementDigest { elements: [zero, zero, zero, zero] };
        assert(digest@ =~= seq![0int, 0int, 0int, 0int]);
        digest
    }
}

impl ElementDigest {
    /// The digest made of the given elements.
    pub fn new(elements: [Fp; 4]) -> (digest: ElementDigest)
        ensures
            digest@ == values(elements@),
    {
        ElementDigest { elements }
    }

    /// The elements of the digest.
    pub fn as_elements(&self) -> (elements: &[Fp; 4])
        ensures
            values(elements@) == self@,
    {
        &self.elements
    }

    /// A copy of the elements of the digest.
    pub fn to_elements(&self) -> (elements: [Fp; 4])
        ensures
            values(elements@) == self@,
    {
        self.elements
    }

    /// The digest made of the first four elements of a state.
    pub fn from_state<const W: usize>(state: &[Fp; W]) -> (digest: ElementDigest)
        requires
            W >= 4,
        ensures
            digest@ == values(state@).take(4),
    {
        let digest = ElementDigest { elements: [state[0], state[1], state[2], state[3]] };
        assert(digest@ =~= values(state@).take(4));
        digest
    }

    /// The elements of the digest followed by the element congruent to
    /// `value`.
    pub fn with_int(&self, value: u64) -> (elements: Vec<Fp>)
        ensures
            values(elements@) == self@.push(residue(value as int)),
    {
        let mut elements: Vec<Fp> = Vec::new();
        elements.push(self.elements[0]);
        elements.push(self.elements[1]);
        elements.push(self.elements[2]);
        elements.push(self.elements[3]);
        elements.push(Fp::new(value));
        assert(values(elements@) =~= self@.push(residue(value as int)));
        elements
    }

    /// The digest that 32 bytes spell; `None` where some element is not a
    /// canonical representative.
    pub fn from_bytes(bytes: &[u8; 32]) -> (r: Option<ElementDigest>)
        ensures
            r.is_some() == decode_elements(bytes@).is_some(),
            r.is_some() ==> r.unwrap()@ == decode_elements(bytes@).unwrap(),
    {
        let zero = Fp::zero();
        let mut elements = [zero, zero, zero, zero];
        let mut i: usize = 0;
        while i < 4
            invariant
                i <= 4,
                forall|k: int|
                    0 <= k < i ==> {
                        let e = #[trigger] decode_element(bytes@.subrange(8 * k, 8 * k + 8));
                        e.is_some() && elements@[k]@ == e.unwrap()
                    },
            decreases 4 - i,
        {
            let mut chunk = [0u8; 8];
            let mut j: usize = 0;
            while j < 8
                invariant
                    i < 4,
                    j <= 8,
                    forall|k: int| 0 <= k < j ==> chunk@[k] == bytes@[8 * i + k],
                decreases 8 - j,
            {
                chunk[j] = bytes[8 * i + j];
                j += 1;
            }
            assert(chunk@ =~= bytes@.subrange(8 * i as int, 8 * i as int + 8));
            match Fp::from_bytes(&chunk) {
                Some(element) => {
                    elements[i] = element;
                },
                None => {
                    return None;
                },
            }
            i += 1;
        }
        let digest = ElementDigest { elements };
        assert(digest@ =~= decode_elements(bytes@).unwrap()) by {
            assert(decode_element(bytes@.subrange(8 * 0int, 8 * 0int + 8)).is_some());
            assert(decode_element(bytes@.subrange(8 * 1int, 8 * 1int + 8)).is_some());
            assert(decode_element(bytes@.subrange(8 * 2int, 8 * 2int + 8)).is_some());
            assert(decode_element(bytes@.subrange(8 * 3int, 8 * 3int + 8)).is_some());
        }
        Some(digest)
    }
}

impl Digest for ElementDigest {
    open spec fn spec_elements(&self) -> Seq<int> {
        self@
    }

    open spec fn spec_encode(elements: Seq<int>) -> Seq<u8> {
        encode_elements(elements)
    }

    open spec fn spec_decode(bytes: Seq<u8>) -> Option<Seq<int>> {
        decode_elements(bytes)
    }

    fn as_bytes(&self) -> (bytes: [u8; 32]) {
        let mut bytes = [0u8; 32];
        let mut i: usize = 0;
        while i < 4
            invariant
                i <= 4,
                forall|k: int, j: int|
                    0 <= k < i && 0 <= j < 8 ==> bytes@[8 * k + j] == encode_element(self@[k])[j],
                forall|k: int| 0 <= k < i ==> 0 <= #[trigger] self@[k] < modulus(),
                forall|k: int| 0 <= k < i ==> (#[trigger] encode_element(self@[k])).len() == 8,
            decreases 4 - i,
        {
            let element = self.elements[i];
            let chunk = element.to_bytes();
            let canonical = element.to_u64();
            let mut j: usize = 0;
            while j < 8
                invariant
                    i < 4,
                    j <= 8,
                    chunk@ == encode_element(self@[i as int]),
                    forall|k: int, l: int|
                        0 <= k < i && 0 <= l < 8 ==> bytes@[8 * k + l] == encode_element(
                            self@[k],
                        )[l],
                    forall|l: int| 0 <= l < j ==> bytes@[8 * i + l] == chunk@[l],
                decreases 8 - j,
            {
                bytes[8 * i + j] = chunk[j];
                j += 1;
            }
            i += 1;
        }
        proof {
            lemma_digest_round_trip(self@);
            assert(bytes@ =~= encode_elements(self@));
        }
        bytes
    }
}

/// Two digests with the same elements are the same digest. A hash function
/// states the elements of its digest as a function of its input alone, so
/// two calls on the same input return the same digest.
pub proof fn lemma_digest_view_injective(a: ElementDigest, b: ElementDigest)
    ensures
        a@ == b@ <==> a == b,
{
    if a@ == b@ {
        assert forall|i: int| 0 <= i < 4 implies a.elements[i] == b.elements[i] by {
            assert(a@[i] == b@[i]);
            lemma_view_injective(a.elements[i], b.elements[i]);
        }
        assert(a.elements =~= b.elements);
    }
}

} // verus!
