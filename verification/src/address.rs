use crate::pubkey::Pubkey;
use vstd::prelude::*;

verus! {

/// The first `width` bytes of `value` in little-endian order: the lowest
/// byte first.
pub open spec fn le_bytes(value: nat, width: nat) -> Seq<u8>
    decreases width,
{
    if width == 0 {
        Seq::empty()
    } else {
        seq![(value % 256) as u8] + le_bytes(value / 256, (width - 1) as nat)
    }
}

/// The bytes of the word `raffle`, which begin the seeds of a raffle.
pub open spec fn raffle_tag() -> Seq<u8> {
    seq![114u8, 97u8, 102u8, 102u8, 108u8, 101u8]
}

/// The bytes of the word `ticket`, which begin the seeds of a ticket.
pub open spec fn ticket_tag() -> Seq<u8> {
    seq![116u8, 105u8, 99u8, 107u8, 101u8, 116u8]
}

/// The seeds of a raffle's address, in their order: the word `raffle`, the
/// creator's address, and the raffle's number in eight little-endian bytes.
pub open spec fn raffle_seed_parts(creator: Pubkey, raffle_id: u64) -> Seq<Seq<u8>> {
    seq![raffle_tag(), creator@, le_bytes(raffle_id as nat, 8)]
}

/// The seeds of a ticket's address, in their order: the word `ticket`, the
/// raffle's address, and the ticket's number in four little-endian bytes.
pub open spec fn ticket_seed_parts(raffle: Pubkey, ticket_number: u32) -> Seq<Seq<u8>> {
    seq![ticket_tag(), raffle@, le_bytes(ticket_number as nat, 4)]
}

/// Writes the `width` lowest bytes of `value`, the lowest first.
fn low_bytes(value: u64, width: usize) -> (bytes: Vec<u8>)
    ensures
        bytes@ == le_bytes(value as nat, width as nat),
{
    let mut bytes: Vec<u8> = Vec::new();
    let mut rest: u64 = value;
    let mut i: usize = 0;
    while i < width
        invariant
            i <= width,
            bytes@ + le_bytes(rest as nat, (width - i) as nat) == le_bytes(
                value as nat,
                width as nat,
            ),
        decreases width - i,
    {
        let low: u8 = (rest % 256) as u8;
        proof {
            assert(bytes@.push(low) + le_bytes((rest / 256) as nat, (width - i - 1) as nat)
                =~= bytes@ + le_bytes(rest as nat, (width - i) as nat));
        }
        bytes.push(low);
        rest = rest / 256;
        i = i + 1;
    }
    proof {
        assert(bytes@ + le_bytes(rest as nat, 0) =~= bytes@);
    }
    bytes
}

/// Copies the 32 bytes of an address.
fn key_bytes(key: &Pubkey) -> (bytes: Vec<u8>)
    ensures
        bytes@ == key@,
{
    let mut bytes: Vec<u8> = Vec::new();
    let mut i: usize = 0;
    while i < 32
        invariant
            i <= 32,
            bytes@ == key@.take(i as int),
        decreases 32 - i,
    {
        bytes.push(key.bytes[i]);
        i = i + 1;
    }
    bytes
}

/// The seeds from which the address of a raffle is derived.
pub fn raffle_seeds(creator: &Pubkey, raffle_id: u64) -> (seeds: Vec<Vec<u8>>)
    ensures
        seeds.deep_view() == raffle_seed_parts(*creator, raffle_id),
        seeds@.len() == 3,
{
    let tag: Vec<u8> = vec![114u8, 97u8, 102u8, 102u8, 108u8, 101u8];
    let seeds = vec![tag, key_bytes(creator), low_bytes(raffle_id, 8)];
    proof {
        assert(seeds.deep_view() =~~= raffle_seed_parts(*creator, raffle_id));
    }
    seeds
}

/// The seeds from which the address of a ticket is derived. The number of a
/// ticket is the count of tickets that its raffle had sold before it.
pub fn ticket_seeds(raffle: &Pubkey, ticket_number: u32) -> (seeds: Vec<Vec<u8>>)
    ensures
        seeds.deep_view() == ticket_seed_parts(*raffle, ticket_number),
        seeds@.len() == 3,
{
    let tag: Vec<u8> = vec![116u8, 105u8, 99u8, 107u8, 101u8, 116u8];
    let seeds = vec![tag, key_bytes(raffle), low_bytes(ticket_number as u64, 4)];
    proof {
        assert(seeds.deep_view() =~~= ticket_seed_parts(*raffle, ticket_number));
    }
    seeds
}

/// The number of values that `width` bytes can tell apart: 256 to the power
/// of `width`.
pub open spec fn byte_range(width: nat) -> nat
    decreases width,
{
    if width == 0 {
        1
    } else {
        256 * byte_range((width - 1) as nat)
    }
}

/// Two values that `width` bytes can hold and that are written with the same
/// bytes are the same value.
pub proof fn lemma_le_bytes_tell_values_apart(a: nat, b: nat, width: nat)
    requires
        a < byte_range(width),
        b < byte_range(width),
        le_bytes(a, width) == le_bytes(b, width),
    ensures
        a == b,
    decreases width,
{
    if width > 0 {
        let rest = (width - 1) as nat;
        let bytes_a = le_bytes(a, width);
        let bytes_b = le_bytes(b, width);
        assert(bytes_a[0] == (a % 256) as u8);
        assert(bytes_b[0] == (b % 256) as u8);
        assert(bytes_a.skip(1) =~= le_bytes(a / 256, rest));
        assert(bytes_b.skip(1) =~= le_bytes(b / 256, rest));
        lemma_le_bytes_tell_values_apart(a / 256, b / 256, rest);
    }
}

/// The seeds of two raffles are the same only if the raffles have the same
/// creator and the same number: no two raffles share an address.
pub proof fn lemma_raffle_seeds_tell_raffles_apart(
    creator: Pubkey,
    raffle_id: u64,
    other_creator: Pubkey,
    other_id: u64,
)
    requires
        raffle_seed_parts(creator, raffle_id) == raffle_seed_parts(other_creator, other_id),
    ensures
        creator == other_creator,
        raffle_id == other_id,
{
    Pubkey::lemma_eq_by_bytes(creator, other_creator);
    assert(byte_range(8) == 0x1_0000_0000_0000_0000) by {
        reveal_with_fuel(byte_range, 9);
    }
    lemma_le_bytes_tell_values_apart(raffle_id as nat, other_id as nat, 8);
}

/// The seeds of two tickets are the same only if the tickets belong to the
/// same raffle and have the same number: no two tickets share an address.
pub proof fn lemma_ticket_seeds_tell_tickets_apart(
    raffle: Pubkey,
    ticket_number: u32,
    other_raffle: Pubkey,
    other_number: u32,
)
    requires
        ticket_seed_parts(raffle, ticket_number) == ticket_seed_parts(other_raffle, other_number),
    ensures
        raffle == other_raffle,
        ticket_number == other_number,
{
    Pubkey::lemma_eq_by_bytes(raffle, other_raffle);
    assert(byte_range(4) == 0x1_0000_0000) by {
        reveal_with_fuel(byte_range, 5);
    }
    lemma_le_bytes_tell_values_apart(ticket_number as nat, other_number as nat, 4);
}

/// The seeds of a raffle are never the seeds of a ticket: their first parts
/// differ.
pub proof fn lemma_raffle_seeds_are_no_ticket_seeds(
    creator: Pubkey,
    raffle_id: u64,
    raffle: Pubkey,
    ticket_number: u32,
)
    ensures
        raffle_seed_parts(creator, raffle_id) != ticket_seed_parts(raffle, ticket_number),
{
    assert(raffle_seed_parts(creator, raffle_id)[0][0] != ticket_seed_parts(
        raffle,
        ticket_number,
    )[0][0]);
}

/// The address and bump seed that the program `program_id` derives from
/// `seeds`, if it derives any. The derivation hashes its arguments and
/// searches for a bump seed; it depends on nothing else.
pub uninterp spec fn program_address(seeds: Seq<Seq<u8>>, program_id: Seq<u8>) -> Option<
    (Seq<u8>, u8),
>;

/// Derives an address with `Pubkey::try_find_program_address`, which
/// `anchor_lang` hands on from `solana_program`. Nothing is proved of that
/// function: it is taken to return what `program_address` names, the same
/// for the same seeds and program, and `None` where it finds no address.
#[verifier::external_body]
fn find_program_address(seeds: &Vec<Vec<u8>>, program_id: &Pubkey) -> (found: Option<(Pubkey, u8)>)
    ensures
        match found {
            Some((address, bump)) => program_address(seeds.deep_view(), program_id@) == Some(
                (address@, bump),
            ),
            None => program_address(seeds.deep_view(), program_id@) is None,
        },
{
    let slices: Vec<&[u8]> = seeds.iter().map(|seed| seed.as_slice()).collect();
    let program = anchor_lang::prelude::Pubkey::new_from_array(program_id.bytes);
    match anchor_lang::prelude::Pubkey::try_find_program_address(&slices, &program) {
        Some((address, bump)) => Some((Pubkey { bytes: address.to_bytes() }, bump)),
        None => None,
    }
}

/// The address under which the program `program_id` keeps the raffle number
/// `raffle_id` of `creator`, with its bump seed: what the derivation makes of
/// the raffle's seeds. The raffle's escrow lives at the same address. `None`
/// where the derivation finds no address.
pub fn raffle_address(program_id: &Pubkey, creator: &Pubkey, raffle_id: u64) -> (found: Option<
    (Pubkey, u8),
>)
    ensures
        match found {
            Some((address, bump)) => program_address(
                raffle_seed_parts(*creator, raffle_id),
                program_id@,
            ) == Some((address@, bump)),
            None => program_address(raffle_seed_parts(*creator, raffle_id), program_id@) is None,
        },
{
    let seeds = raffle_seeds(creator, raffle_id);
    find_program_address(&seeds, program_id)
}

/// The address under which the program `program_id` keeps the ticket number
/// `ticket_number` of the raffle at `raffle`, with its bump seed: what the
/// derivation makes of the ticket's seeds. `None` where the derivation finds
/// no address.
pub fn ticket_address(program_id: &Pubkey, raffle: &Pubkey, ticket_number: u32) -> (found: Option<
    (Pubkey, u8),
>)
    ensures
        match found {
            Some((address, bump)) => program_address(
                ticket_seed_parts(*raffle, ticket_number),
                program_id@,
            ) == Some((address@, bump)),
            None => program_address(ticket_seed_parts(*raffle, ticket_number), program_id@) is None,
        },
{
    let seeds = ticket_seeds(raffle, ticket_number);
    find_program_address(&seeds, program_id)
}

} // verus!
