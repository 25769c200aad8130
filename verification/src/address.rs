//! Derived addresses: where the counter and each record are stored.

use vstd::prelude::*;
use vstd::bytes::{
    lemma_auto_spec_u64_to_from_le_bytes, spec_u64_to_le_bytes, u64_to_le_bytes,
};
use crate::identity::Identity;

verus! {

/// The address, with its bump seed, that a program derives from a list of
/// seeds; `None` where no bump seed yields an address.
pub uninterp spec fn program_address(seeds: Seq<Seq<u8>>, program_id: Seq<u8>) -> Option<
    (Seq<u8>, u8),
>;

/// The seeds as sequences of bytes.
pub open spec fn seeds_view(seeds: Seq<Vec<u8>>) -> Seq<Seq<u8>> {
    Seq::new(seeds.len(), |i: int| seeds[i]@)
}

/// Trusted: `Pubkey::try_find_program_address`. It hashes the seeds, a bump
/// seed, the program's identity and a fixed marker, trying bump seeds from
/// 255 downwards until the hash is no point of the ed25519 curve. The result
/// depends on the seeds and the program's identity alone; the contract names
/// it and claims nothing else.
#[verifier::external_body]
fn try_find_program_address(seeds: &Vec<Vec<u8>>, program_id: &Identity) -> (found: Option<
    (Identity, u8),
>)
    ensures
        match found {
            Some((address, bump)) => program_address(seeds_view(seeds@), program_id@) == Some(
                (address@, bump),
            ),
            None => program_address(seeds_view(seeds@), program_id@) is None,
        },
{
    let slices: Vec<&[u8]> = seeds.iter().map(|seed| seed.as_slice()).collect();
    let program = anchor_lang::prelude::Pubkey::new_from_array(program_id.bytes);
    anchor_lang::prelude::Pubkey::try_find_program_address(&slices, &program)
        .map(|(address, bump)| (Identity { bytes: address.to_bytes() }, bump))
}

/// The tag of the counter's address: the ASCII text `state`.
pub open spec fn state_tag() -> Seq<u8> {
    seq![115u8, 116u8, 97u8, 116u8, 101u8]
}

/// The tag of a record's address: the ASCII text `transaction`.
pub open spec fn record_tag() -> Seq<u8> {
    seq![116u8, 114u8, 97u8, 110u8, 115u8, 97u8, 99u8, 116u8, 105u8, 111u8, 110u8]
}

/// The seeds of the counter's address: the constant tag alone.
pub open spec fn state_seeds() -> Seq<Seq<u8>> {
    seq![state_tag()]
}

/// The seeds of a record's address: the tag, the sender and the counter's
/// value at creation, in little-endian bytes.
pub open spec fn record_seeds(sender: Seq<u8>, sequence: u64) -> Seq<Seq<u8>> {
    seq![record_tag(), sender, spec_u64_to_le_bytes(sequence)]
}

/// The address of the counter of the program `program_id`.
pub open spec fn state_address_spec(program_id: Seq<u8>) -> Option<(Seq<u8>, u8)> {
    program_address(state_seeds(), program_id)
}

/// The address of the record that `sender` creates while the counter of the
/// program `program_id` stands at `sequence`.
pub open spec fn record_address_spec(program_id: Seq<u8>, sender: Seq<u8>, sequence: u64) -> Option<
    (Seq<u8>, u8),
> {
    program_address(record_seeds(sender, sequence), program_id)
}

/// Derives the counter's address and bump seed.
pub fn state_address(program_id: &Identity) -> (found: Option<(Identity, u8)>)
    ensures
        match found {
            Some((address, bump)) => state_address_spec(program_id@) == Some((address@, bump)),
            None => state_address_spec(program_id@) is None,
        },
{
    let mut tag: Vec<u8> = Vec::new();
    tag.push(115u8);
    tag.push(116u8);
    tag.push(97u8);
    tag.push(116u8);
    tag.push(101u8);
    let mut seeds: Vec<Vec<u8>> = Vec::new();
    seeds.push(tag);
    proof {
        assert(seeds@[0]@ =~= state_tag());
        assert(seeds_view(seeds@) =~= state_seeds());
    }
    try_find_program_address(&seeds, program_id)
}

/// Derives the address and bump seed of the record that `sender` creates
/// while the counter stands at `sequence`.
pub fn record_address(program_id: &Identity, sender: &Identity, sequence: u64) -> (found: Option<
    (Identity, u8),
>)
    ensures
        match found {
            Some((address, bump)) => record_address_spec(program_id@, sender@, sequence) == Some(
                (address@, bump),
            ),
            None => record_address_spec(program_id@, sender@, sequence) is None,
        },
{
    let mut tag: Vec<u8> = Vec::new();
    tag.push(116u8);
    tag.push(114u8);
    tag.push(97u8);
    tag.push(110u8);
    tag.push(115u8);
    tag.push(97u8);
    tag.push(99u8);
    tag.push(116u8);
    tag.push(105u8);
    tag.push(111u8);
    tag.push(110u8);
    let mut who: Vec<u8> = Vec::new();
    let mut i: usize = 0;
    while i < 32
        invariant
            i <= 32,
            who@ =~= sender@.subrange(0, i as int),
        decreases 32 - i,
    {
        who.push(sender.bytes[i]);
        i += 1;
    }
    let mut seeds: Vec<Vec<u8>> = Vec::new();
    seeds.push(tag);
    seeds.push(who);
    seeds.push(u64_to_le_bytes(sequence));
    proof {
        assert(seeds@[0]@ =~= record_tag());
        assert(seeds@[1]@ =~= sender@);
        assert(seeds_view(seeds@) =~= record_seeds(sender@, sequence));
    }
    try_find_program_address(&seeds, program_id)
}

/// Distinct pairs of sender and counter value give distinct seeds; so do
/// the seeds laid end to end, which is what the derivation hashes. A sender
/// therefore never presents the same derivation input twice while the counter
/// advances.
pub proof fn lemma_record_seeds_injective(
    sender_a: Identity,
    sequence_a: u64,
    sender_b: Identity,
    sequence_b: u64,
)
    ensures
        record_seeds(sender_a@, sequence_a) == record_seeds(sender_b@, sequence_b) <==> (sender_a
            == sender_b && sequence_a == sequence_b),
        record_seeds(sender_a@, sequence_a).flatten() == record_seeds(
            sender_b@,
            sequence_b,
        ).flatten() <==> (sender_a == sender_b && sequence_a == sequence_b),
{
    lemma_auto_spec_u64_to_from_le_bytes();
    Identity::lemma_view_injective(sender_a, sender_b);
    let seeds_a = record_seeds(sender_a@, sequence_a);
    let seeds_b = record_seeds(sender_b@, sequence_b);
    let le_a = spec_u64_to_le_bytes(sequence_a);
    let le_b = spec_u64_to_le_bytes(sequence_b);
    assert(seeds_a[1] == sender_a@ && seeds_a[2] == le_a);
    assert(seeds_b[1] == sender_b@ && seeds_b[2] == le_b);
    lemma_flatten_three(record_tag(), sender_a@, le_a);
    lemma_flatten_three(record_tag(), sender_b@, le_b);
    let flat_a = seeds_a.flatten();
    let flat_b = seeds_b.flatten();
    if flat_a == flat_b {
        assert(sender_a@ =~= flat_a.subrange(11, 43));
        assert(sender_b@ =~= flat_b.subrange(11, 43));
        assert(le_a =~= flat_a.subrange(43, 51));
        assert(le_b =~= flat_b.subrange(43, 51));
    }
}

/// Three seeds laid end to end.
proof fn lemma_flatten_three(a: Seq<u8>, b: Seq<u8>, c: Seq<u8>)
    ensures
        seq![a, b, c].flatten() =~= a + b + c,
{
    let s = seq![a, b, c];
    assert(s.drop_first() =~= seq![b, c]);
    assert(s.drop_first().drop_first() =~= seq![c]);
    assert(seq![c].drop_first() =~= Seq::<Seq<u8>>::empty());
    assert(Seq::<Seq<u8>>::empty().flatten() =~= Seq::<u8>::empty());
    assert(seq![c].flatten() =~= c);
    assert(seq![b, c].flatten() =~= b + c);
}

} // verus!
