//! The route of a swap through several pools, in the byte form that the
//! router takes: the first token's address, then for each pool its fee in
//! three bytes and the address of the token that it leads to.

use vstd::prelude::*;

verus! {

/// A route that cannot be encoded.
#[derive(Clone, Copy, Debug, PartialEq, Eq)]
pub enum PathError {
    /// There is not exactly one fee between each two tokens.
    LengthMismatch,
}

impl PathError {
    /// The message shown to the operator.
    pub fn message(&self) -> (r: String)
        ensures
            r@ == "path and fee length not match"@,
    {
        "path and fee length not match".to_owned()
    }
}

/// The three bytes of a pool fee below 2^24, most significant first.
pub open spec fn fee_bytes(fee: u32) -> Seq<u8> {
    seq![(fee / 0x1_0000 % 0x100) as u8, (fee / 0x100 % 0x100) as u8, (fee % 0x100) as u8]
}

/// The bytes of the first `k` tokens of a route and of the fees between
/// them.
pub open spec fn encoded_hops(path: Seq<[u8; 20]>, fee: Seq<u32>, k: nat) -> Seq<u8>
    recommends
        k <= path.len(),
        k <= fee.len() + 1,
    decreases k,
{
    if k == 0 {
        Seq::empty()
    } else if k == 1 {
        path[0]@
    } else {
        encoded_hops(path, fee, (k - 1) as nat) + fee_bytes(fee[k - 2]) + path[k - 1]@
    }
}

/// The bytes of a whole route.
pub open spec fn encoded_path(path: Seq<[u8; 20]>, fee: Seq<u32>) -> Seq<u8>
    recommends
        path.len() == fee.len() + 1,
{
    encoded_hops(path, fee, path.len())
}

/// The three bytes of a pool fee, most significant first.
///
/// Calls `ruint::Uint::<24, 1>::from` and `ruint::Uint::to_be_bytes_vec`, and
/// trusts them to take a number below 2^24 as it is and to give its three
/// bytes in big-endian order.
#[verifier::external_body]
fn fee_rate_bytes(fee: u32) -> (r: Vec<u8>)
    requires
        fee < 0x100_0000,
    ensures
        r@ == fee_bytes(fee),
{
    let fee_rate: ruint::Uint<24, 1> = ruint::Uint::from(fee);
    fee_rate.to_be_bytes_vec()
}

/// Appends the bytes of an address.
fn push_address(out: &mut Vec<u8>, address: &[u8; 20])
    ensures
        final(out)@ == old(out)@ + address@,
{
    let mut i: usize = 0;
    while i < 20
        invariant
            i <= 20,
            out@ == old(out)@ + address@.take(i as int),
        decreases 20 - i,
    {
        out.push(address[i]);
        assert(out@ =~= old(out)@ + address@.take(i + 1));
        i += 1;
    }
    assert(address@.take(20) =~= address@);
}

/// Appends bytes.
fn push_bytes(out: &mut Vec<u8>, bytes: &Vec<u8>)
    ensures
        final(out)@ == old(out)@ + bytes@,
{
    let n = bytes.len();
    let mut i: usize = 0;
    while i < n
        invariant
            i <= n,
            n == bytes@.len(),
            out@ == old(out)@ + bytes@.take(i as int),
        decreases n - i,
    {
        out.push(bytes[i]);
        assert(out@ =~= old(out)@ + bytes@.take(i + 1));
        i += 1;
    }
    assert(bytes@.take(n as int) =~= bytes@);
}

/// Encodes a route: the tokens of `path` in order, with the fee of the pool
/// between each two of them. A route that does not have exactly one fee
/// between each two tokens is refused.
pub fn build_multi_hop_swap_path(path: Vec<[u8; 20]>, fee: Vec<u32>) -> (r: Result<
    Vec<u8>,
    PathError,
>)
    requires
        path@.len() == fee@.len() + 1 ==> forall|i: int|
            0 <= i < fee@.len() ==> #[trigger] fee@[i] < 0x100_0000,
    ensures
        match r {
            Ok(bytes) => path@.len() == fee@.len() + 1 && bytes@ == encoded_path(path@, fee@),
            Err(e) => path@.len() != fee@.len() + 1 && e == PathError::LengthMismatch,
        },
{
    let n = path.len();
    if n == 0 || n - 1 != fee.len() {
        return Err(PathError::LengthMismatch);
    }
    let mut trade_path: Vec<u8> = Vec::new();
    let mut i: usize = 0;
    while i < n
        invariant
            i <= n,
            n == path@.len(),
            n == fee@.len() + 1,
            forall|j: int| 0 <= j < fee@.len() ==> #[trigger] fee@[j] < 0x100_0000,
            trade_path@ == encoded_hops(path@, fee@, i as nat),
        decreases n - i,
    {
        if i > 0 {
            let fee_rate_byte = fee_rate_bytes(fee[i - 1]);
            push_bytes(&mut trade_path, &fee_rate_byte);
        }
        push_address(&mut trade_path, &path[i]);
        proof {
            if i == 0 {
                assert(trade_path@ =~= path@[0]@);
            }
        }
        i += 1;
    }
    Ok(trade_path)
}

} // verus!
