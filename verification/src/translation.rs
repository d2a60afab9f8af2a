//! The translation layer: from an SDK-level voucher request to the request in its
//! on-chain form.

use vstd::prelude::*;
use crate::account::MultiChainSmartAccount;
use crate::actions::token_not_deployed;
use crate::config::{chain_entry, FeeConfig};
use crate::contract_types::{
    views, Asset, AtomicSwapFeeRule, DestinationSwapComponent, DestinationSwapComponentView,
    SdkVoucherRequest, SdkVoucherRequestView, SourceSwapComponent, SourceSwapComponentView,
    VoucherRequest, VoucherRequestView,
};
use crate::error::{EilError, EilErrorView, Result};
use crate::multichain::deployment;
use crate::network::NetworkEnvironment;
use crate::primitives::{Address, U256};
use crate::types::{ChainId, TokenAmount, TokenAmountView};
use crate::utils::fee_percent_to_numerator;
use vstd::string::StringExecFns;

verus! {

/// The most a user operation on the destination chain may cost: 0.01 ether, in wei.
pub const MAX_USER_OP_COST: u64 = 10_000_000_000_000_000;

/// The text of the error for an account without an address on a chain.
pub open spec fn account_missing() -> Seq<char> {
    "Account not deployed"@
}

/// The text of the error for a chain without a paymaster.
pub open spec fn paymaster_missing() -> Seq<char> {
    "Paymaster not configured"@
}

/// The asset a requested token stands for on a chain: the token's address there and
/// the amount a provider has to cover; `InvalidAddress` where the token has no address
/// on the chain.
pub open spec fn token_asset(t: TokenAmountView, chain_id: ChainId) -> std::result::Result<
    Asset,
    EilErrorView,
> {
    match deployment(t.token.deployments, chain_id) {
        Some(a) => Ok(Asset { erc20_token: a, amount: TokenAmount::resolved_amount(t) }),
        None => Err(
            EilErrorView::InvalidAddress { chain_id, address: token_not_deployed(t.token.name) },
        ),
    }
}

/// The assets that the requested tokens stand for on a chain, in order, or the error of
/// the first token that has no address there.
pub open spec fn assets_on(tokens: Seq<TokenAmountView>, chain_id: ChainId) -> std::result::Result<
    Seq<Asset>,
    EilErrorView,
>
    decreases tokens.len(),
{
    if tokens.len() == 0 {
        Ok(Seq::empty())
    } else {
        match assets_on(tokens.drop_last(), chain_id) {
            Err(e) => Err(e),
            Ok(head) => match token_asset(tokens.last(), chain_id) {
                Err(e) => Err(e),
                Ok(a) => Ok(head.push(a)),
            },
        }
    }
}

/// The on-chain fee rule of a fee configuration: each fraction as its numerator out of
/// 10,000.
pub open spec fn fee_rule_of(fees: FeeConfig) -> AtomicSwapFeeRule {
    AtomicSwapFeeRule {
        start_fee_percent_numerator: U256::spec_from_u64((fees.start_fee_percent.micros / 100) as u64),
        max_fee_percent_numerator: U256::spec_from_u64((fees.max_fee_percent.micros / 100) as u64),
        fee_increase_per_second: U256::spec_from_u64(
            (fees.fee_increase_per_second.micros / 100) as u64,
        ),
        unspent_voucher_fee: U256::spec_from_u64(
            (fees.unspent_voucher_fee_percent.micros / 100) as u64,
        ),
    }
}

/// The moment a voucher requested at `now` expires.
pub open spec fn expiry(now: u64, expire_time_seconds: u64) -> U256 {
    U256 { hi: 0, lo: (now + expire_time_seconds) as u128 }
}

/// The on-chain form of a voucher request, for an account in a network environment,
/// with the allowed providers `allowed_xlps`, requested at `now` (Unix seconds).
///
/// The translation fails with `SameChainVoucher` where the destination is the source
/// chain, and with `InvalidAddress` for the first missing address: the account on the
/// source chain; the account on the destination chain, if the request names no target;
/// the paymaster of the source chain, then of the destination chain; a token on the
/// source chain, then on the destination chain.
pub open spec fn translation<A: MultiChainSmartAccount>(
    request: SdkVoucherRequestView,
    account: A,
    env: NetworkEnvironment,
    allowed_xlps: Seq<Address>,
    now: u64,
) -> std::result::Result<VoucherRequestView, EilErrorView>
    recommends
        request.source_chain_id is Some,
{
    let source = request.source_chain_id->0;
    let dest = request.destination_chain_id;
    let config = env.spec_config();
    if dest == source {
        Err(EilErrorView::SameChainVoucher(source))
    } else if account.account_address(source) is None {
        Err(EilErrorView::InvalidAddress { chain_id: source, address: account_missing() })
    } else if request.target is None && account.account_address(dest) is None {
        Err(EilErrorView::InvalidAddress { chain_id: dest, address: account_missing() })
    } else if chain_entry(env.infos(), source) is None {
        Err(EilErrorView::InvalidAddress { chain_id: source, address: paymaster_missing() })
    } else if chain_entry(env.infos(), dest) is None {
        Err(EilErrorView::InvalidAddress { chain_id: dest, address: paymaster_missing() })
    } else {
        match assets_on(request.tokens, source) {
            Err(e) => Err(e),
            Ok(source_assets) => match assets_on(request.tokens, dest) {
                Err(e) => Err(e),
                Ok(dest_assets) => Ok(
                    VoucherRequestView {
                        origination: SourceSwapComponentView {
                            chain_id: source,
                            sender: account.account_address(source)->0,
                            paymaster: chain_entry(env.infos(), source)->0.paymaster,
                            assets: source_assets,
                            fee_rule: fee_rule_of(config.fee_config),
                            sender_nonce: U256::spec_from_u64(0),
                            allowed_xlps,
                        },
                        destination: DestinationSwapComponentView {
                            chain_id: dest,
                            sender: match request.target {
                                Some(t) => t,
                                None => account.account_address(dest)->0,
                            },
                            paymaster: chain_entry(env.infos(), dest)->0.paymaster,
                            assets: dest_assets,
                            max_user_op_cost: U256::spec_from_u64(MAX_USER_OP_COST),
                            expires_at: expiry(now, config.expire_time_seconds),
                        },
                    },
                ),
            },
        }
    }
}

/// Whether every address that the translation of `request` asks for is there: the
/// request names a source chain other than its destination, the account has an address
/// on the source chain and, unless the request names a target, on the destination
/// chain, both chains are configured, and every token is deployed on both.
pub open spec fn mapped<A: MultiChainSmartAccount>(
    request: SdkVoucherRequestView,
    account: A,
    env: NetworkEnvironment,
) -> bool {
    let source = request.source_chain_id->0;
    let dest = request.destination_chain_id;
    &&& request.source_chain_id is Some
    &&& dest != source
    &&& account.account_address(source) is Some
    &&& request.target is Some || account.account_address(dest) is Some
    &&& chain_entry(env.infos(), source) is Some
    &&& chain_entry(env.infos(), dest) is Some
    &&& forall|i: int|
        0 <= i < request.tokens.len() ==> deployment(
            (#[trigger] request.tokens[i]).token.deployments,
            source,
        ) is Some && deployment(request.tokens[i].token.deployments, dest) is Some
}

/// Tokens that are all deployed on a chain have their assets there.
pub proof fn lemma_deployed_tokens_have_assets(tokens: Seq<TokenAmountView>, chain_id: ChainId)
    requires
        forall|i: int|
            0 <= i < tokens.len() ==> deployment((#[trigger] tokens[i]).token.deployments, chain_id) is Some,
    ensures
        assets_on(tokens, chain_id) is Ok,
    decreases tokens.len(),
{
    if tokens.len() > 0 {
        assert forall|i: int| 0 <= i < tokens.drop_last().len() implies deployment(
            (#[trigger] tokens.drop_last()[i]).token.deployments,
            chain_id,
        ) is Some by {
            assert(tokens.drop_last()[i] == tokens[i]);
        }
        lemma_deployed_tokens_have_assets(tokens.drop_last(), chain_id);
        assert(deployment(tokens[tokens.len() - 1].token.deployments, chain_id) is Some);
    }
}

/// A request with every address in place translates, whatever the providers allowed
/// and the moment.
pub proof fn lemma_mapped_request_translates<A: MultiChainSmartAccount>(
    request: SdkVoucherRequestView,
    account: A,
    env: NetworkEnvironment,
    allowed_xlps: Seq<Address>,
    now: u64,
)
    requires
        mapped(request, account, env),
    ensures
        translation(request, account, env, allowed_xlps, now) is Ok,
{
    lemma_deployed_tokens_have_assets(request.tokens, request.source_chain_id->0);
    lemma_deployed_tokens_have_assets(request.tokens, request.destination_chain_id);
}

/// A failure among the first tokens is the failure of the whole list.
pub proof fn lemma_assets_on_prefix(tokens: Seq<TokenAmountView>, chain_id: ChainId, n: int)
    requires
        0 <= n <= tokens.len(),
        assets_on(tokens.subrange(0, n), chain_id) is Err,
    ensures
        assets_on(tokens, chain_id) == assets_on(tokens.subrange(0, n), chain_id),
    decreases tokens.len() - n,
{
    if n == tokens.len() {
        assert(tokens.subrange(0, n) =~= tokens);
    } else {
        let next = tokens.subrange(0, n + 1);
        assert(next.drop_last() =~= tokens.subrange(0, n));
        lemma_assets_on_prefix(tokens, chain_id, n + 1);
    }
}

fn token_error(t: &TokenAmount, chain_id: ChainId) -> (e: EilError)
    ensures
        e@ == (EilErrorView::InvalidAddress { chain_id, address: token_not_deployed(t@.token.name) }),
{
    let mut text = String::from_str("Token ");
    text.append(t.token.name.as_str());
    text.append(" not deployed");
    EilError::InvalidAddress { chain_id, address: text }
}

/// The assets that the requested tokens stand for on a chain.
pub fn tokens_to_assets(tokens: &Vec<TokenAmount>, chain_id: ChainId) -> (r: Result<Vec<Asset>>)
    ensures
        match assets_on(views(tokens@), chain_id) {
            Ok(assets) => r matches Ok(v) && v@ == assets,
            Err(e) => r matches Err(x) && x@ == e,
        },
{
    let ghost all = views(tokens@);
    let mut assets: Vec<Asset> = Vec::new();
    let mut i: usize = 0;
    proof {
        assert(all.subrange(0, 0) =~= Seq::<TokenAmountView>::empty());
    }
    while i < tokens.len()
        invariant
            i <= tokens.len(),
            all == views(tokens@),
            assets_on(all.subrange(0, i as int), chain_id) == Ok::<Seq<Asset>, EilErrorView>(assets@),
        decreases tokens.len() - i,
    {
        proof {
            let next = all.subrange(0, i as int + 1);
            assert(next.drop_last() =~= all.subrange(0, i as int));
            assert(next.last() == tokens@[i as int]@);
        }
        match tokens[i].token.address_on(chain_id) {
            Some(a) => {
                assets.push(Asset { erc20_token: a, amount: tokens[i].resolve_amount() });
            },
            None => {
                proof {
                    lemma_assets_on_prefix(all, chain_id, i as int + 1);
                }
                return Err(token_error(&tokens[i], chain_id));
            },
        }
        i = i + 1;
    }
    proof {
        assert(all.subrange(0, i as int) =~= all);
    }
    Ok(assets)
}

/// The on-chain fee rule of a fee configuration.
pub fn fee_rule(fees: &FeeConfig) -> (r: AtomicSwapFeeRule)
    ensures
        r == fee_rule_of(*fees),
{
    AtomicSwapFeeRule {
        start_fee_percent_numerator: fee_percent_to_numerator(fees.start_fee_percent),
        max_fee_percent_numerator: fee_percent_to_numerator(fees.max_fee_percent),
        fee_increase_per_second: fee_percent_to_numerator(fees.fee_increase_per_second),
        unspent_voucher_fee: fee_percent_to_numerator(fees.unspent_voucher_fee_percent),
    }
}

fn no_address(chain_id: ChainId, text: &str) -> (e: EilError)
    ensures
        e@ == (EilErrorView::InvalidAddress { chain_id, address: text@ }),
{
    EilError::InvalidAddress { chain_id, address: text.to_owned() }
}

/// Translates an SDK-level voucher request into its on-chain form, for `account` in
/// the network environment `env`, with the allowed providers `allowed_xlps`, as
/// requested at `now` (Unix seconds). The request names its source chain.
pub fn sdk_to_voucher_request<A: MultiChainSmartAccount>(
    sdk_request: &SdkVoucherRequest,
    account: &A,
    env: &NetworkEnvironment,
    allowed_xlps: Vec<Address>,
    now: u64,
) -> (r: Result<VoucherRequest>)
    requires
        sdk_request.source_chain_id is Some,
    ensures
        match translation(sdk_request@, *account, *env, allowed_xlps@, now) {
            Ok(request) => r matches Ok(v) && v@ == request,
            Err(e) => r matches Err(x) && x@ == e,
        },
{
    let source: ChainId = match sdk_request.source_chain_id {
        Some(c) => c,
        None => vstd::pervasive::unreached(),
    };
    let dest: ChainId = sdk_request.destination_chain_id;
    if dest == source {
        return Err(EilError::SameChainVoucher(source));
    }
    let source_sender: Address = match account.address_on(source) {
        Ok(a) => a,
        Err(_) => {
            return Err(no_address(source, "Account not deployed"));
        },
    };
    let dest_sender: Address = match sdk_request.target {
        Some(t) => t,
        None => match account.address_on(dest) {
            Ok(a) => a,
            Err(_) => {
                return Err(no_address(dest, "Account not deployed"));
            },
        },
    };
    let source_paymaster: Address = match env.paymaster(source) {
        Ok(a) => a,
        Err(_) => {
            return Err(no_address(source, "Paymaster not configured"));
        },
    };
    let dest_paymaster: Address = match env.paymaster(dest) {
        Ok(a) => a,
        Err(_) => {
            return Err(no_address(dest, "Paymaster not configured"));
        },
    };
    let source_assets = tokens_to_assets(&sdk_request.tokens, source)?;
    let dest_assets = tokens_to_assets(&sdk_request.tokens, dest)?;
    let config = env.config();
    let expires_at = U256::from_u128(now as u128 + config.expire_time_seconds as u128);
    Ok(
        VoucherRequest {
            origination: SourceSwapComponent {
                chain_id: source,
                sender: source_sender,
                paymaster: source_paymaster,
                assets: source_assets,
                fee_rule: fee_rule(&config.fee_config),
                sender_nonce: U256::from_u64(0),
                allowed_xlps,
            },
            destination: DestinationSwapComponent {
                chain_id: dest,
                sender: dest_sender,
                paymaster: dest_paymaster,
                assets: dest_assets,
                max_user_op_cost: U256::from_u64(MAX_USER_OP_COST),
                expires_at,
            },
        },
    )
}

} // verus!
