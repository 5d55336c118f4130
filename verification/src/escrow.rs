//! The capability over a market's escrow. Funds leave an escrow only under
//! the seeds of its own address, which follow from the market's identity and
//! the currency tag and from no key.

use vstd::prelude::*;
use crate::identity::Identity;

verus! {

/// The bytes of an identity, in order.
pub fn identity_bytes(id: &Identity) -> (out: Vec<u8>)
    ensures
        out@ == id.bytes@,
{
    let mut out: Vec<u8> = Vec::new();
    let mut i: usize = 0;
    while i < 32
        invariant
            0 <= i <= 32,
            out@ == id.bytes@.subrange(0, i as int),
        decreases 32 - i,
    {
        out.push(id.bytes[i]);
        i += 1;
        assert(out@ =~= id.bytes@.subrange(0, i as int));
    }
    assert(out@ =~= id.bytes@);
    out
}

/// The seeds of the escrow of the market `market_key`: the text `escrow`, the
/// market's identity, the currency tag `SOL`, and the bump.
pub open spec fn escrow_seeds_of(market_key: Identity, escrow_bump: u8) -> Seq<Seq<u8>> {
    seq![
        seq![0x65u8, 0x73u8, 0x63u8, 0x72u8, 0x6fu8, 0x77u8],
        market_key.bytes@,
        seq![0x53u8, 0x4fu8, 0x4cu8],
        seq![escrow_bump],
    ]
}

/// The seeds under which funds may leave the escrow of the market
/// `market_key`, and no other balance.
pub fn escrow_seeds(market_key: &Identity, escrow_bump: u8) -> (seeds: Vec<Vec<u8>>)
    ensures
        seeds.deep_view() == escrow_seeds_of(*market_key, escrow_bump),
{
    let tag: Vec<u8> = vec![0x65u8, 0x73u8, 0x63u8, 0x72u8, 0x6fu8, 0x77u8];
    let key: Vec<u8> = identity_bytes(market_key);
    let currency: Vec<u8> = vec![0x53u8, 0x4fu8, 0x4cu8];
    let bump: Vec<u8> = vec![escrow_bump];
    let mut seeds: Vec<Vec<u8>> = Vec::new();
    seeds.push(tag);
    seeds.push(key);
    seeds.push(currency);
    seeds.push(bump);
    proof {
        let want = escrow_seeds_of(*market_key, escrow_bump);
        assert(seeds.deep_view().len() == 4);
        assert(seeds[0]@ =~= want[0]);
        assert(seeds[2]@ =~= want[2]);
        assert(seeds[3]@ =~= want[3]);
        assert(seeds.deep_view() =~~= want);
    }
    seeds
}

} // verus!
