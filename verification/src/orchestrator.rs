use crate::auction::{
    calculate_price, price_computable, price_spec, AuctionParameters,
};
use crate::errors::ContractError;
use crate::escrow::{clone_string, funds_match, Coin, Timelocks};
use crate::registry::OrderRegistry;
use crate::subcall::{DelegatedPull, EventRecord};
use vstd::prelude::*;
use vstd::string::StringExecFns;

verus! {

/// The correlation identifier of the delegated pull sub-call.
pub const PULL_REPLY: u64 = 1;

/// The correlation identifier of the escrow instantiation sub-call.
pub const ESCROW_DEPLOY_REPLY: u64 = 2;

/// The deployment configuration: which code template new escrow instances
/// are created from.
#[derive(Clone, Copy, Debug, PartialEq, Eq)]
pub struct State {
    pub escrow_code_id: u64,
}

/// The wire form of the orchestrator's own deployment message.
#[derive(Clone, Copy, Debug, PartialEq, Eq)]
pub struct InstantiateMsg {
    pub escrow_code_id: u64,
}

/// The order terms as the fill request carries them: hashes still
/// hex-encoded, no token yet.
#[derive(Clone, Debug)]
pub struct Immutables {
    pub rescue_delay: u64,
    pub order_hash: String,
    pub hashlock: String,
    pub maker: String,
    pub taker: String,
    pub timelocks: Timelocks,
}

/// The taker's declared limits for the fill.
#[derive(Clone, Copy, Debug, PartialEq, Eq)]
pub struct TakerTraits {
    pub threshold_taking_price: u128,
}

/// A fill request: amounts, auction shape, taker limits and order terms.
#[derive(Clone, Debug)]
pub struct FillOrderMsg {
    pub making_amount: Coin,
    pub taking_amount: Coin,
    pub auction_params: AuctionParameters,
    pub taker_traits: TakerTraits,
    pub immutables: Immutables,
}

/// The escrow deployment message, fully formed: the settlement price is
/// already baked into the token.
#[derive(Clone, Debug)]
pub struct EscrowInstantiateMsg {
    pub rescue_delay: u64,
    pub order_hash: String,
    pub hashlock: String,
    pub maker: String,
    pub taker: String,
    pub token: Coin,
    pub timelocks: Timelocks,
}

/// An admitted fill: the delegated pull to dispatch, its correlation
/// identifier, and the instantiation message it carries as opaque payload.
#[derive(Clone, Debug)]
pub struct FillOrderOutcome {
    pub pull: DelegatedPull,
    pub payload: EscrowInstantiateMsg,
    pub reply_id: u64,
}

/// An escrow instantiation for the host: template, message, attached
/// funds, label and correlation identifier.
#[derive(Clone, Debug)]
pub struct InstantiateEscrow {
    pub code_id: u64,
    pub msg: EscrowInstantiateMsg,
    pub funds: Coin,
    pub label: String,
    pub reply_id: u64,
}

/// The auction has not opened yet at the given clock value.
pub open spec fn auction_not_started(params: AuctionParameters, now: u64) -> bool {
    now < params.start_time
}

/// The auction is already over at the given clock value.
pub open spec fn auction_ended(params: AuctionParameters, now: u64) -> bool {
    now > params.start_time + params.duration
}

/// Admits an order at most once, prices it by the auction clock, checks
/// the taker's threshold, marks the order processed, and hands back the
/// delegated pull carrying the fully formed escrow message as payload.
pub fn fill_order(
    registry: &mut OrderRegistry,
    now: u64,
    self_address: &String,
    msg: FillOrderMsg,
) -> (r: Result<FillOrderOutcome, ContractError>)
    ensures
        old(registry).is_marked(msg.immutables.order_hash@) <==> r == Err::<
            FillOrderOutcome,
            ContractError,
        >(ContractError::OrderAlreadyProcessed),
        !old(registry).is_marked(msg.immutables.order_hash@) && auction_not_started(
            msg.auction_params,
            now,
        ) ==> r == Err::<FillOrderOutcome, ContractError>(ContractError::AuctionNotStarted),
        !old(registry).is_marked(msg.immutables.order_hash@) && !auction_not_started(
            msg.auction_params,
            now,
        ) && auction_ended(msg.auction_params, now) ==> r == Err::<
            FillOrderOutcome,
            ContractError,
        >(ContractError::AuctionEndedAlready),
        !old(registry).is_marked(msg.immutables.order_hash@) && !auction_not_started(
            msg.auction_params,
            now,
        ) && !auction_ended(msg.auction_params, now) && msg.making_amount.amount
            < msg.taking_amount.amount ==> r is Err && r->Err_0 is Std,
        !old(registry).is_marked(msg.immutables.order_hash@) && !auction_not_started(
            msg.auction_params,
            now,
        ) && !auction_ended(msg.auction_params, now) && msg.making_amount.amount
            >= msg.taking_amount.amount && !price_computable(
            msg.making_amount.amount,
            msg.taking_amount.amount,
            msg.auction_params,
            now,
        ) ==> r is Err && r->Err_0 is Std,
        !old(registry).is_marked(msg.immutables.order_hash@) && !auction_not_started(
            msg.auction_params,
            now,
        ) && !auction_ended(msg.auction_params, now) && msg.making_amount.amount
            >= msg.taking_amount.amount && price_computable(
            msg.making_amount.amount,
            msg.taking_amount.amount,
            msg.auction_params,
            now,
        ) ==> {
            let price = price_spec(
                msg.making_amount.amount,
                msg.taking_amount.amount,
                msg.auction_params,
                now,
            );
            if price > msg.taker_traits.threshold_taking_price {
                r == Err::<FillOrderOutcome, ContractError>(ContractError::PriceIsAboveThreshold)
            } else {
                r is Ok
            }
        },
        r is Ok ==> {
            let price = price_spec(
                msg.making_amount.amount,
                msg.taking_amount.amount,
                msg.auction_params,
                now,
            );
            let out = r->Ok_0;
            &&& out.pull.grantee@ == self_address@
            &&& out.pull.from_address@ == msg.immutables.maker@
            &&& out.pull.to_address@ == self_address@
            &&& out.pull.denom@ == msg.making_amount.denom@
            &&& out.pull.amount == price
            &&& out.payload.rescue_delay == msg.immutables.rescue_delay
            &&& out.payload.order_hash@ == msg.immutables.order_hash@
            &&& out.payload.hashlock@ == msg.immutables.hashlock@
            &&& out.payload.maker@ == msg.immutables.maker@
            &&& out.payload.taker@ == msg.immutables.taker@
            &&& out.payload.token.denom@ == msg.taking_amount.denom@
            &&& out.payload.token.amount == price
            &&& out.payload.timelocks == msg.immutables.timelocks
            &&& out.reply_id == PULL_REPLY
        },
        r is Ok ==> final(registry)@ == old(registry)@.push(msg.immutables.order_hash@),
        r is Ok ==> final(registry).is_marked(msg.immutables.order_hash@),
        r is Err ==> final(registry)@ == old(registry)@,
        forall|h: Seq<char>| old(registry).is_marked(h) ==> final(registry).is_marked(h),
{
    if registry.is_processed(&msg.immutables.order_hash) {
        return Err(ContractError::OrderAlreadyProcessed);
    }
    if now < msg.auction_params.start_time {
        return Err(ContractError::AuctionNotStarted);
    }
    if (now as u128) > (msg.auction_params.start_time as u128) + (
    msg.auction_params.duration as u128) {
        return Err(ContractError::AuctionEndedAlready);
    }
    if msg.making_amount.amount < msg.taking_amount.amount {
        return Err(ContractError::Std("taking amount exceeds making amount".to_owned()));
    }
    let current_price = match calculate_price(
        msg.making_amount.amount,
        msg.taking_amount.amount,
        &msg.auction_params,
        now,
    ) {
        Ok(p) => p,
        Err(e) => {
            return Err(e);
        },
    };
    if current_price > msg.taker_traits.threshold_taking_price {
        return Err(ContractError::PriceIsAboveThreshold);
    }
    let payload = EscrowInstantiateMsg {
        rescue_delay: msg.immutables.rescue_delay,
        order_hash: clone_string(&msg.immutables.order_hash),
        hashlock: msg.immutables.hashlock,
        maker: clone_string(&msg.immutables.maker),
        taker: msg.immutables.taker,
        token: Coin { denom: msg.taking_amount.denom, amount: current_price },
        timelocks: msg.immutables.timelocks,
    };
    let pull = DelegatedPull {
        grantee: clone_string(self_address),
        from_address: msg.immutables.maker,
        to_address: clone_string(self_address),
        denom: msg.making_amount.denom,
        amount: current_price,
    };
    registry.mark_processed(msg.immutables.order_hash);
    Ok(FillOrderOutcome { pull, payload, reply_id: PULL_REPLY })
}

/// Admits a pre-priced escrow deployment at most once, checks the
/// attached funds against the declared token, marks the order processed,
/// and hands back the instantiation order.
pub fn deploy_dest_escrow(
    registry: &mut OrderRegistry,
    escrow_code_id: u64,
    funds: &Vec<Coin>,
    msg: EscrowInstantiateMsg,
) -> (r: Result<InstantiateEscrow, ContractError>)
    ensures
        old(registry).is_marked(msg.order_hash@) <==> r == Err::<
            InstantiateEscrow,
            ContractError,
        >(ContractError::OrderAlreadyProcessed),
        !old(registry).is_marked(msg.order_hash@) && !funds_match(funds@, msg.token) ==> r
            == Err::<InstantiateEscrow, ContractError>(ContractError::UnmatchedDenomOrAmount),
        !old(registry).is_marked(msg.order_hash@) && funds_match(funds@, msg.token) ==> r is Ok,
        r is Ok ==> {
            let out = r->Ok_0;
            &&& out.code_id == escrow_code_id
            &&& out.msg.rescue_delay == msg.rescue_delay
            &&& out.msg.order_hash@ == msg.order_hash@
            &&& out.msg.hashlock@ == msg.hashlock@
            &&& out.msg.maker@ == msg.maker@
            &&& out.msg.taker@ == msg.taker@
            &&& out.msg.token.denom@ == msg.token.denom@
            &&& out.msg.token.amount == msg.token.amount
            &&& out.msg.timelocks == msg.timelocks
            &&& out.funds.denom@ == msg.token.denom@
            &&& out.funds.amount == msg.token.amount
            &&& out.label@ == "Escrow Contract for "@ + msg.order_hash@
            &&& out.reply_id == ESCROW_DEPLOY_REPLY
        },
        r is Ok ==> final(registry)@ == old(registry)@.push(msg.order_hash@),
        r is Err ==> final(registry)@ == old(registry)@,
        forall|h: Seq<char>| old(registry).is_marked(h) ==> final(registry).is_marked(h),
{
    if registry.is_processed(&msg.order_hash) {
        return Err(ContractError::OrderAlreadyProcessed);
    }
    let mut found = false;
    let n = funds.len();
    let mut i: usize = 0;
    while i < n
        invariant
            0 <= i <= n,
            n == funds.len(),
            found <==> exists|j: int|
                0 <= j < i && (#[trigger] funds@[j]).denom@ == msg.token.denom@
                    && funds@[j].amount == msg.token.amount,
        decreases n - i,
    {
        let asset = &funds[i];
        if asset.denom == msg.token.denom && asset.amount == msg.token.amount {
            found = true;
        }
        i += 1;
    }
    if !found {
        return Err(ContractError::UnmatchedDenomOrAmount);
    }
    let order = instantiate_order(escrow_code_id, msg);
    registry.mark_processed(clone_string(&order.msg.order_hash));
    Ok(order)
}

/// Resumes the flow when the pull sub-call completes: a failed pull ends
/// it, a successful one turns the carried payload into the instantiation
/// of the escrow, funded with the payload's token.
pub fn handle_pull_reply(success: bool, payload: EscrowInstantiateMsg, escrow_code_id: u64) -> (r:
    Result<InstantiateEscrow, ContractError>)
    ensures
        r is Ok <==> success,
        !success ==> r == Err::<InstantiateEscrow, ContractError>(ContractError::PullFundsError),
        r is Ok ==> {
            let out = r->Ok_0;
            &&& out.code_id == escrow_code_id
            &&& out.msg.rescue_delay == payload.rescue_delay
            &&& out.msg.order_hash@ == payload.order_hash@
            &&& out.msg.hashlock@ == payload.hashlock@
            &&& out.msg.maker@ == payload.maker@
            &&& out.msg.taker@ == payload.taker@
            &&& out.msg.token.denom@ == payload.token.denom@
            &&& out.msg.token.amount == payload.token.amount
            &&& out.msg.timelocks == payload.timelocks
            &&& out.funds.denom@ == payload.token.denom@
            &&& out.funds.amount == payload.token.amount
            &&& out.label@ == "Escrow Contract for "@ + payload.order_hash@
            &&& out.reply_id == ESCROW_DEPLOY_REPLY
        },
{
    if !success {
        return Err(ContractError::PullFundsError);
    }
    Ok(instantiate_order(escrow_code_id, payload))
}

/// The name under which the result of decoding an instantiation
/// acknowledgement is known: the new instance's address, a function of
/// the acknowledgement bytes alone, or nothing when they do not parse.
pub uninterp spec fn parsed_contract_address(data: Seq<u8>) -> Option<Seq<char>>;

/// Relies on cw_utils::parse_instantiate_response_data: the contract
/// address field of the host's instantiate acknowledgement, decoded from
/// the protobuf bytes alone.
#[verifier::external_body]
fn parse_contract_address(data: &Vec<u8>) -> (r: Option<String>)
    ensures
        r is Some <==> parsed_contract_address(data@) is Some,
        r is Some ==> r->0@ == parsed_contract_address(data@)->0,
{
    cw_utils::parse_instantiate_response_data(data.as_slice()).ok().map(
        |res| res.contract_address,
    )
}

/// Ends the flow when the instantiation sub-call completes: a failure
/// ends it, a success decodes the new instance's address from the
/// acknowledgement and emits the final audit record.
pub fn handle_instantiate_reply(success: bool, ack_data: &Vec<u8>) -> (r: Result<
    EventRecord,
    ContractError,
>)
    ensures
        !success ==> r == Err::<EventRecord, ContractError>(ContractError::EscrowContractError),
        success && parsed_contract_address(ack_data@) is Some ==> r is Ok && {
            let out = r->Ok_0;
            &&& out.name@ == "escrow_contract"@
            &&& out.attr_key@ == "contract_address"@
            &&& out.attr_value@ == parsed_contract_address(ack_data@)->0
        },
        success && parsed_contract_address(ack_data@) is None ==> r is Err && r->Err_0 is Std,
{
    if !success {
        return Err(ContractError::EscrowContractError);
    }
    match parse_contract_address(ack_data) {
        Some(address) => Ok(
            EventRecord {
                name: "escrow_contract".to_owned(),
                attr_key: "contract_address".to_owned(),
                attr_value: address,
            },
        ),
        None => Err(
            ContractError::Std("malformed instantiate acknowledgement".to_owned()),
        ),
    }
}

/// The instantiation order for a fully formed escrow message: funded with
/// its token and labelled after its order hash.
fn instantiate_order(escrow_code_id: u64, msg: EscrowInstantiateMsg) -> (r: InstantiateEscrow)
    ensures
        r.code_id == escrow_code_id,
        r.msg.rescue_delay == msg.rescue_delay,
        r.msg.order_hash@ == msg.order_hash@,
        r.msg.hashlock@ == msg.hashlock@,
        r.msg.maker@ == msg.maker@,
        r.msg.taker@ == msg.taker@,
        r.msg.token.denom@ == msg.token.denom@,
        r.msg.token.amount == msg.token.amount,
        r.msg.timelocks == msg.timelocks,
        r.funds.denom@ == msg.token.denom@,
        r.funds.amount == msg.token.amount,
        r.label@ == "Escrow Contract for "@ + msg.order_hash@,
        r.reply_id == ESCROW_DEPLOY_REPLY,
{
    let label = "Escrow Contract for ".to_owned().concat(msg.order_hash.as_str());
    let funds = Coin {
        denom: clone_string(&msg.token.denom),
        amount: msg.token.amount,
    };
    InstantiateEscrow {
        code_id: escrow_code_id,
        msg,
        funds,
        label,
        reply_id: ESCROW_DEPLOY_REPLY,
    }
}

} // verus!
