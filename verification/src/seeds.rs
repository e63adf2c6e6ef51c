use vstd::prelude::*;
use vstd::slice::slice_to_vec;
use crate::state::{Pool, Pubkey};

verus! {

/// The tag of a pool's seed path: the bytes of `pool`.
pub open spec fn pool_tag() -> Seq<u8> {
    seq![112u8, 111u8, 111u8, 108u8]
}

/// The tag of a position's seed path: the bytes of `user_position`.
pub open spec fn position_tag() -> Seq<u8> {
    seq![117u8, 115u8, 101u8, 114u8, 95u8, 112u8, 111u8, 115u8, 105u8, 116u8, 105u8, 111u8, 110u8]
}

/// The tag of the admin record's seed path: the bytes of `admin`.
pub open spec fn admin_tag() -> Seq<u8> {
    seq![97u8, 100u8, 109u8, 105u8, 110u8]
}

/// The seeds of a path, each as the bytes it holds.
pub open spec fn seed_path(seeds: Vec<Vec<u8>>) -> Seq<Seq<u8>> {
    Seq::new(seeds@.len(), |i: int| seeds@[i]@)
}

fn pool_tag_bytes() -> (tag: Vec<u8>)
    ensures
        tag@ == pool_tag(),
{
    let mut tag: Vec<u8> = Vec::new();
    tag.push(112);
    tag.push(111);
    tag.push(111);
    tag.push(108);
    assert(tag@ =~= pool_tag());
    tag
}

fn position_tag_bytes() -> (tag: Vec<u8>)
    ensures
        tag@ == position_tag(),
{
    let mut tag: Vec<u8> = Vec::new();
    tag.push(117);
    tag.push(115);
    tag.push(101);
    tag.push(114);
    tag.push(95);
    tag.push(112);
    tag.push(111);
    tag.push(115);
    tag.push(105);
    tag.push(116);
    tag.push(105);
    tag.push(111);
    tag.push(110);
    assert(tag@ =~= position_tag());
    tag
}

fn admin_tag_bytes() -> (tag: Vec<u8>)
    ensures
        tag@ == admin_tag(),
{
    let mut tag: Vec<u8> = Vec::new();
    tag.push(97);
    tag.push(100);
    tag.push(109);
    tag.push(105);
    tag.push(110);
    assert(tag@ =~= admin_tag());
    tag
}

/// The path with the nonce added as its last seed.
fn with_bump(seeds: Vec<Vec<u8>>, bump: u8) -> (signed: Vec<Vec<u8>>)
    ensures
        seed_path(signed) == seed_path(seeds).push(seq![bump]),
{
    let mut signed = seeds;
    let mut nonce: Vec<u8> = Vec::new();
    nonce.push(bump);
    assert(nonce@ =~= seq![bump]);
    signed.push(nonce);
    assert(seed_path(signed) =~= seed_path(seeds).push(seq![bump]));
    signed
}

/// The seeds from which a pool's address is found: the tag, the pool's id
/// and its creator.
pub fn pool_seeds(pool_id: &[u8; 16], creator: &Pubkey) -> (seeds: Vec<Vec<u8>>)
    ensures
        seed_path(seeds) == seq![pool_tag(), pool_id@, creator@],
{
    let mut seeds: Vec<Vec<u8>> = Vec::new();
    seeds.push(pool_tag_bytes());
    seeds.push(slice_to_vec(pool_id.as_slice()));
    seeds.push(slice_to_vec(creator.as_slice()));
    assert(seed_path(seeds) =~= seq![pool_tag(), pool_id@, creator@]);
    seeds
}

/// The seeds with which a pool signs for its token account: the tag, the
/// pool's id, its creator and its nonce.
pub fn pool_signer_seeds(pool: &Pool) -> (seeds: Vec<Vec<u8>>)
    ensures
        seed_path(seeds) == seq![pool_tag(), pool.pool_id@, pool.creator@, seq![pool.bump]],
{
    let seeds = with_bump(pool_seeds(&pool.pool_id, &pool.creator), pool.bump);
    assert(seed_path(seeds) =~= seq![pool_tag(), pool.pool_id@, pool.creator@, seq![pool.bump]]);
    seeds
}

/// The seeds from which a position's address is found: the tag, the pool's
/// address and the depositor.
pub fn position_seeds(pool: &Pubkey, user: &Pubkey) -> (seeds: Vec<Vec<u8>>)
    ensures
        seed_path(seeds) == seq![position_tag(), pool@, user@],
{
    let mut seeds: Vec<Vec<u8>> = Vec::new();
    seeds.push(position_tag_bytes());
    seeds.push(slice_to_vec(pool.as_slice()));
    seeds.push(slice_to_vec(user.as_slice()));
    assert(seed_path(seeds) =~= seq![position_tag(), pool@, user@]);
    seeds
}

/// The seeds that make a position's address with the nonce on record.
pub fn position_signer_seeds(pool: &Pubkey, user: &Pubkey, bump: u8) -> (seeds: Vec<Vec<u8>>)
    ensures
        seed_path(seeds) == seq![position_tag(), pool@, user@, seq![bump]],
{
    let seeds = with_bump(position_seeds(pool, user), bump);
    assert(seed_path(seeds) =~= seq![position_tag(), pool@, user@, seq![bump]]);
    seeds
}

/// The seeds from which the admin record's address is found: the tag alone.
pub fn admin_seeds() -> (seeds: Vec<Vec<u8>>)
    ensures
        seed_path(seeds) == seq![admin_tag()],
{
    let mut seeds: Vec<Vec<u8>> = Vec::new();
    seeds.push(admin_tag_bytes());
    assert(seed_path(seeds) =~= seq![admin_tag()]);
    seeds
}

/// The seeds that make the admin record's address with the nonce on record.
pub fn admin_signer_seeds(bump: u8) -> (seeds: Vec<Vec<u8>>)
    ensures
        seed_path(seeds) == seq![admin_tag(), seq![bump]],
{
    let seeds = with_bump(admin_seeds(), bump);
    assert(seed_path(seeds) =~= seq![admin_tag(), seq![bump]]);
    seeds
}

} // verus!
