//! The arguments of the contract that deploys a coin on chain.

use vstd::prelude::*;

verus! {

/// What a new coin is deployed with. Addresses are their 20 bytes; the
/// initial purchase is a 256-bit amount of wei, as four 64-bit words with the
/// least significant first.
#[derive(Clone, Debug)]
pub struct CoinParams {
    pub name: String,
    pub symbol: String,
    pub uri: String,
    pub payout_recipient: [u8; 20],
    pub platform_referrer: Option<[u8; 20]>,
    pub initial_purchase_wei: [u64; 4],
}

/// The constructor arguments of the coin contract, in their order.
#[derive(Clone, Debug)]
pub struct DeployArgs {
    pub name: String,
    pub symbol: String,
    pub uri: String,
    pub payout_recipient: [u8; 20],
    pub platform_referrer: [u8; 20],
    pub initial_purchase_wei: [u64; 4],
}

/// The zero address, twenty zero bytes.
pub open spec fn zero_address() -> Seq<u8> {
    Seq::new(20, |i: int| 0u8)
}

/// The constructor arguments for `params`: its fields in order, with the zero
/// address standing for a missing platform referrer.
pub fn deploy_arguments(params: CoinParams) -> (args: DeployArgs)
    ensures
        args.name@ == params.name@,
        args.symbol@ == params.symbol@,
        args.uri@ == params.uri@,
        args.payout_recipient@ == params.payout_recipient@,
        args.platform_referrer@ == match params.platform_referrer {
            Some(a) => a@,
            None => zero_address(),
        },
        args.initial_purchase_wei@ == params.initial_purchase_wei@,
{
    let referrer = match params.platform_referrer {
        Some(a) => a,
        None => {
            let z = [0u8; 20];
            assert(z@ =~= zero_address());
            z
        },
    };
    DeployArgs {
        name: params.name,
        symbol: params.symbol,
        uri: params.uri,
        payout_recipient: params.payout_recipient,
        platform_referrer: referrer,
        initial_purchase_wei: params.initial_purchase_wei,
    }
}

} // verus!
