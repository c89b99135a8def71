use crate::errors::ContractError;
use crate::hex_codec::{hex_decode, hex_decoded, hex_encode, hex_encoded, is_hex_string};
use crate::secret::{keccak256_of, only_valid_secret};
use crate::subcall::DelegatedPull;
use vstd::prelude::*;

verus! {

/// The correlation identifier the source-side escrow attaches to its
/// delegated pull sub-call.
pub const REPLY_ID: u64 = 1;

/// An amount of one native token: denomination and integer amount.
#[derive(Clone, Debug, PartialEq, Eq)]
pub struct Coin {
    pub denom: String,
    pub amount: u128,
}

/// Seven timelock offsets in seconds, each measured from the instance's
/// deployment timestamp.
#[derive(Clone, Copy, Debug, PartialEq, Eq)]
pub struct Timelocks {
    pub dest_withdrawal: u64,
    pub dest_public_withdrawal: u64,
    pub dest_cancellation: u64,
    pub src_cancellation: u64,
    pub src_withdrawal: u64,
    pub src_public_withdrawal: u64,
    pub src_public_cancellation: u64,
}

/// The order terms fixed at deployment and never mutated afterwards.
#[derive(Clone, Debug)]
pub struct Immutables {
    pub order_hash: Vec<u8>,
    pub hashlock: Vec<u8>,
    pub maker: String,
    pub taker: String,
    pub token: Coin,
    pub timelocks: Timelocks,
}

/// Per-instance runtime state, set exactly once at deployment.
#[derive(Clone, Copy, Debug, PartialEq, Eq)]
pub struct State {
    pub deployed_at: u64,
    pub rescue_delay: u64,
}

/// Which swap leg the instance guards; selects the offset pair and the
/// recipient of a successful withdraw.
#[derive(Clone, Copy, Debug, PartialEq, Eq)]
pub enum Role {
    Source,
    Destination,
}

/// One escrow instance: a role, its runtime state and the immutable order
/// terms it enforces.
#[derive(Clone, Debug)]
pub struct Escrow {
    pub role: Role,
    pub state: State,
    pub immutables: Immutables,
}

/// The wire form of the deployment message: hashes still hex-encoded.
#[derive(Clone, Debug)]
pub struct InstantiateMsgData {
    pub rescue_delay: u64,
    pub order_hash: String,
    pub hashlock: String,
    pub maker: String,
    pub taker: String,
    pub token: Coin,
    pub timelocks: Timelocks,
}

/// The withdraw command: the claimed secret.
#[derive(Clone, Debug)]
pub struct WithdrawMsg {
    pub secret: String,
}

/// The targeted withdraw command of the source leg's wire format.
#[derive(Clone, Debug)]
pub struct WithdrawToMsg {
    pub secret: String,
}

/// The pull command of the source leg: whose funds to pull, and how much.
#[derive(Clone, Debug)]
pub struct PullFundsMsg {
    pub from: String,
    pub amount: Coin,
}

/// The queries an instance answers.
#[derive(Clone, Debug)]
pub enum QueryMsg {
    OrderDetails,
}

/// The order hash, hex-encoded again for the wire.
#[derive(Clone, Debug, PartialEq, Eq)]
pub struct OrderHashResponse {
    pub order_hash: String,
}

/// The stored timelock offsets.
#[derive(Clone, Debug, PartialEq, Eq)]
pub struct TimelockResponse {
    pub timelocks: Timelocks,
}

/// The host clock value at the time of the query.
#[derive(Clone, Debug, PartialEq, Eq)]
pub struct CurrentTimeResponse {
    pub time: u64,
}

/// Every stored detail of the order, hashes hex-encoded for the wire.
#[derive(Clone, Debug, PartialEq, Eq)]
pub struct GetOrderDetailsResponse {
    pub deployed_at: u64,
    pub rescue_delay: u64,
    pub order_hash: String,
    pub hashlock: String,
    pub maker: String,
    pub taker: String,
    pub token: Coin,
    pub timelocks: Timelocks,
}

/// A single-coin payment for the host's bank module to carry out.
#[derive(Clone, Debug)]
pub struct Transfer {
    pub to_address: String,
    pub amount: Coin,
}

/// True when the boundary still lies strictly in the future of the given
/// time, i.e. the guarded window has not opened yet.
pub fn only_after(current_time: u64, value: u64) -> (r: bool)
    ensures
        r == (value > current_time),
{
    value > current_time
}

/// True when the boundary already lies strictly in the past of the given
/// time, i.e. the guarded window has closed.
pub fn only_before(current_time: u64, value: u64) -> (r: bool)
    ensures
        r == (value < current_time),
{
    value < current_time
}

/// True when some attached coin matches the declared token exactly, in both
/// denomination and amount.
pub open spec fn funds_match(funds: Seq<Coin>, token: Coin) -> bool {
    exists|i: int|
        0 <= i < funds.len() && (#[trigger] funds[i]).denom@ == token.denom@ && funds[i].amount
            == token.amount
}

impl Escrow {
    /// The offset that opens the private withdraw window for this role.
    pub open spec fn withdrawal_offset(self) -> u64 {
        match self.role {
            Role::Source => self.immutables.timelocks.src_withdrawal,
            Role::Destination => self.immutables.timelocks.dest_withdrawal,
        }
    }

    /// The offset that opens the public withdraw window for this role.
    pub open spec fn public_withdrawal_offset(self) -> u64 {
        match self.role {
            Role::Source => self.immutables.timelocks.src_public_withdrawal,
            Role::Destination => self.immutables.timelocks.dest_public_withdrawal,
        }
    }

    /// The offset that closes both withdraw windows and opens cancellation.
    pub open spec fn cancellation_offset(self) -> u64 {
        match self.role {
            Role::Source => self.immutables.timelocks.src_cancellation,
            Role::Destination => self.immutables.timelocks.dest_cancellation,
        }
    }

    /// Who a successful withdraw pays: the maker on the destination leg,
    /// the taker on the source leg.
    pub open spec fn withdraw_recipient(self) -> Seq<char> {
        match self.role {
            Role::Source => self.immutables.taker@,
            Role::Destination => self.immutables.maker@,
        }
    }

    /// The role's error for a withdraw attempted before its window opens.
    pub open spec fn window_not_open_error(self) -> ContractError {
        match self.role {
            Role::Source => ContractError::SrcWithrawTimeLimit,
            Role::Destination => ContractError::DestWithrawTimeLimit,
        }
    }

    /// The role's error for a withdraw attempted at or past the
    /// cancellation boundary, and for a cancel attempted before it.
    pub open spec fn window_closed_error(self) -> ContractError {
        match self.role {
            Role::Source => ContractError::SrcCancelTimeLimit,
            Role::Destination => ContractError::DestCancelTimeLimit,
        }
    }

    /// The private withdraw window: open from the withdrawal offset up to,
    /// but not including, the cancellation offset.
    pub open spec fn withdraw_window_open(self, now: u64) -> bool {
        self.state.deployed_at + self.withdrawal_offset() <= now < self.state.deployed_at
            + self.cancellation_offset()
    }

    /// The public withdraw window: as the private one, with the public
    /// offset.
    pub open spec fn public_withdraw_window_open(self, now: u64) -> bool {
        self.state.deployed_at + self.public_withdrawal_offset() <= now < self.state.deployed_at
            + self.cancellation_offset()
    }

    /// Cancellation opens at the cancellation offset and never closes.
    pub open spec fn cancel_window_open(self, now: u64) -> bool {
        now >= self.state.deployed_at + self.cancellation_offset()
    }

    /// Rescue opens after the rescue delay, independent of every other
    /// window.
    pub open spec fn rescue_window_open(self, now: u64) -> bool {
        now >= self.state.deployed_at + self.state.rescue_delay
    }

    /// The secret is accepted exactly when its digest equals the hashlock.
    pub open spec fn secret_matches(self, secret: Seq<char>) -> bool {
        keccak256_of(secret) == self.immutables.hashlock@
    }

    /// Validates the attached funds against the declared token, decodes
    /// both hex-encoded hashes, and deploys the instance at the given
    /// clock value.
    pub fn instantiate(role: Role, data: InstantiateMsgData, funds: &Vec<Coin>, now: u64) -> (r:
        Result<Escrow, ContractError>)
        ensures
            r is Ok <==> funds_match(funds@, data.token) && is_hex_string(data.hashlock@)
                && is_hex_string(data.order_hash@),
            !funds_match(funds@, data.token) ==> r == Err::<Escrow, ContractError>(
                ContractError::UnmatchedDenomOrAmount,
            ),
            r is Err && funds_match(funds@, data.token) ==> r->Err_0 is Std,
            r is Ok ==> {
                let e = r->Ok_0;
                &&& e.role == role
                &&& e.state.deployed_at == now
                &&& e.state.rescue_delay == data.rescue_delay
                &&& e.immutables.hashlock@ == hex_decoded(data.hashlock@)
                &&& e.immutables.order_hash@ == hex_decoded(data.order_hash@)
                &&& e.immutables.maker@ == data.maker@
                &&& e.immutables.taker@ == data.taker@
                &&& e.immutables.token.denom@ == data.token.denom@
                &&& e.immutables.token.amount == data.token.amount
                &&& e.immutables.timelocks == data.timelocks
            },
    {
        let mut found = false;
        let n = funds.len();
        let mut i: usize = 0;
        while i < n
            invariant
                0 <= i <= n,
                n == funds.len(),
                found <==> exists|j: int|
                    0 <= j < i && (#[trigger] funds@[j]).denom@ == data.token.denom@
                        && funds@[j].amount == data.token.amount,
            decreases n - i,
        {
            let asset = &funds[i];
            if asset.denom == data.token.denom && asset.amount == data.token.amount {
                found = true;
            }
            i += 1;
        }
        if !found {
            return Err(ContractError::UnmatchedDenomOrAmount);
        }
        let hashlock = match hex_decode(data.hashlock.as_str()) {
            Some(b) => b,
            None => {
                return Err(ContractError::Std("invalid hashlock hex encoding".to_owned()));
            },
        };
        let order_hash = match hex_decode(data.order_hash.as_str()) {
            Some(b) => b,
            None => {
                return Err(
                    ContractError::Std("invalid order hash hex encoding".to_owned()),
                );
            },
        };
        Ok(
            Escrow {
                role,
                state: State { deployed_at: now, rescue_delay: data.rescue_delay },
                immutables: Immutables {
                    order_hash,
                    hashlock,
                    maker: data.maker,
                    taker: data.taker,
                    token: data.token,
                    timelocks: data.timelocks,
                },
            },
        )
    }

    /// The taker redeems the escrow during the private window by revealing
    /// the secret; the role's withdraw recipient is paid.
    pub fn withdraw(&self, now: u64, sender: &String, msg: WithdrawMsg) -> (r: Result<
        Transfer,
        ContractError,
    >)
        ensures
            r is Ok <==> sender@ == self.immutables.taker@ && self.withdraw_window_open(now)
                && self.secret_matches(msg.secret@),
            sender@ != self.immutables.taker@ ==> r == Err::<Transfer, ContractError>(
                ContractError::OnlyTaker,
            ),
            sender@ == self.immutables.taker@ && now < self.state.deployed_at
                + self.withdrawal_offset() ==> r == Err::<Transfer, ContractError>(
                self.window_not_open_error(),
            ),
            sender@ == self.immutables.taker@ && now >= self.state.deployed_at
                + self.withdrawal_offset() && now >= self.state.deployed_at
                + self.cancellation_offset() ==> r == Err::<Transfer, ContractError>(
                self.window_closed_error(),
            ),
            sender@ == self.immutables.taker@ && self.withdraw_window_open(now)
                && !self.secret_matches(msg.secret@) ==> r == Err::<Transfer, ContractError>(
                ContractError::InvalidSecret,
            ),
            r is Ok ==> r->Ok_0.to_address@ == self.withdraw_recipient()
                && r->Ok_0.amount.denom@ == self.immutables.token.denom@
                && r->Ok_0.amount.amount == self.immutables.token.amount,
    {
        if !(*sender == self.immutables.taker) {
            return Err(ContractError::OnlyTaker);
        }
        let deployed: u128 = self.state.deployed_at as u128;
        let w: u64 = match self.role {
            Role::Source => self.immutables.timelocks.src_withdrawal,
            Role::Destination => self.immutables.timelocks.dest_withdrawal,
        };
        let c: u64 = match self.role {
            Role::Source => self.immutables.timelocks.src_cancellation,
            Role::Destination => self.immutables.timelocks.dest_cancellation,
        };
        if (now as u128) < deployed + (w as u128) {
            return Err(match self.role {
                Role::Source => ContractError::SrcWithrawTimeLimit,
                Role::Destination => ContractError::DestWithrawTimeLimit,
            });
        }
        if (now as u128) >= deployed + (c as u128) {
            return Err(match self.role {
                Role::Source => ContractError::SrcCancelTimeLimit,
                Role::Destination => ContractError::DestCancelTimeLimit,
            });
        }
        only_valid_secret(msg.secret, self.clone_hashlock())?;
        Ok(self.payout(match self.role {
            Role::Source => &self.immutables.taker,
            Role::Destination => &self.immutables.maker,
        }))
    }

    /// Anyone redeems the escrow during the public window by revealing the
    /// secret; the recipient is the same as for the private withdraw.
    pub fn public_withdraw(&self, now: u64, msg: WithdrawMsg) -> (r: Result<
        Transfer,
        ContractError,
    >)
        ensures
            r is Ok <==> self.public_withdraw_window_open(now) && self.secret_matches(msg.secret@),
            now < self.state.deployed_at + self.public_withdrawal_offset() ==> r == Err::<
                Transfer,
                ContractError,
            >(self.window_not_open_error()),
            now >= self.state.deployed_at + self.public_withdrawal_offset() && now
                >= self.state.deployed_at + self.cancellation_offset() ==> r == Err::<
                Transfer,
                ContractError,
            >(self.window_closed_error()),
            self.public_withdraw_window_open(now) && !self.secret_matches(msg.secret@) ==> r
                == Err::<Transfer, ContractError>(ContractError::InvalidSecret),
            r is Ok ==> r->Ok_0.to_address@ == self.withdraw_recipient()
                && r->Ok_0.amount.denom@ == self.immutables.token.denom@
                && r->Ok_0.amount.amount == self.immutables.token.amount,
    {
        let deployed: u128 = self.state.deployed_at as u128;
        let w: u64 = match self.role {
            Role::Source => self.immutables.timelocks.src_public_withdrawal,
            Role::Destination => self.immutables.timelocks.dest_public_withdrawal,
        };
        let c: u64 = match self.role {
            Role::Source => self.immutables.timelocks.src_cancellation,
            Role::Destination => self.immutables.timelocks.dest_cancellation,
        };
        if (now as u128) < deployed + (w as u128) {
            return Err(match self.role {
                Role::Source => ContractError::SrcWithrawTimeLimit,
                Role::Destination => ContractError::DestWithrawTimeLimit,
            });
        }
        if (now as u128) >= deployed + (c as u128) {
            return Err(match self.role {
                Role::Source => ContractError::SrcCancelTimeLimit,
                Role::Destination => ContractError::DestCancelTimeLimit,
            });
        }
        only_valid_secret(msg.secret, self.clone_hashlock())?;
        Ok(self.payout(match self.role {
            Role::Source => &self.immutables.taker,
            Role::Destination => &self.immutables.maker,
        }))
    }

    /// The taker recovers the funds once the cancellation window has
    /// opened; no secret is required.
    pub fn cancel(&self, now: u64, sender: &String) -> (r: Result<Transfer, ContractError>)
        ensures
            r is Ok <==> sender@ == self.immutables.taker@ && self.cancel_window_open(now),
            sender@ != self.immutables.taker@ ==> r == Err::<Transfer, ContractError>(
                ContractError::OnlyTaker,
            ),
            sender@ == self.immutables.taker@ && !self.cancel_window_open(now) ==> r == Err::<
                Transfer,
                ContractError,
            >(self.window_closed_error()),
            r is Ok ==> r->Ok_0.to_address@ == self.immutables.taker@
                && r->Ok_0.amount.denom@ == self.immutables.token.denom@
                && r->Ok_0.amount.amount == self.immutables.token.amount,
    {
        if !(*sender == self.immutables.taker) {
            return Err(ContractError::OnlyTaker);
        }
        let deployed: u128 = self.state.deployed_at as u128;
        let c: u64 = match self.role {
            Role::Source => self.immutables.timelocks.src_cancellation,
            Role::Destination => self.immutables.timelocks.dest_cancellation,
        };
        if (now as u128) < deployed + (c as u128) {
            return Err(match self.role {
                Role::Source => ContractError::SrcCancelTimeLimit,
                Role::Destination => ContractError::DestCancelTimeLimit,
            });
        }
        Ok(self.payout(&self.immutables.taker))
    }

    /// The taker reclaims stuck funds once the rescue delay has passed,
    /// independent of the secret and of every other window.
    pub fn rescue_funds(&self, now: u64, sender: &String) -> (r: Result<Transfer, ContractError>)
        ensures
            r is Ok <==> sender@ == self.immutables.taker@ && self.rescue_window_open(now),
            sender@ != self.immutables.taker@ ==> r == Err::<Transfer, ContractError>(
                ContractError::OnlyTaker,
            ),
            sender@ == self.immutables.taker@ && !self.rescue_window_open(now) ==> r == Err::<
                Transfer,
                ContractError,
            >(ContractError::RescueTimeLimit),
            r is Ok ==> r->Ok_0.to_address@ == self.immutables.taker@
                && r->Ok_0.amount.denom@ == self.immutables.token.denom@
                && r->Ok_0.amount.amount == self.immutables.token.amount,
    {
        if !(*sender == self.immutables.taker) {
            return Err(ContractError::OnlyTaker);
        }
        let deployed: u128 = self.state.deployed_at as u128;
        if (now as u128) < deployed + (self.state.rescue_delay as u128) {
            return Err(ContractError::RescueTimeLimit);
        }
        Ok(self.payout(&self.immutables.taker))
    }

    /// The source leg re-stamps its deployment time and asks the host to
    /// pull the declared amount from the granter into its own custody.
    pub fn pull_funds(&mut self, now: u64, self_address: &String, msg: PullFundsMsg) -> (r:
        DelegatedPull)
        ensures
            final(self).state.deployed_at == now,
            final(self).state.rescue_delay == old(self).state.rescue_delay,
            final(self).role == old(self).role,
            final(self).immutables == old(self).immutables,
            r.grantee@ == self_address@,
            r.from_address@ == msg.from@,
            r.to_address@ == self_address@,
            r.denom@ == msg.amount.denom@,
            r.amount == msg.amount.amount,
    {
        self.state.deployed_at = now;
        DelegatedPull {
            grantee: clone_string(self_address),
            from_address: msg.from,
            to_address: clone_string(self_address),
            denom: msg.amount.denom,
            amount: msg.amount.amount,
        }
    }

    /// The stored order hash, hex-encoded for the wire.
    pub fn get_order_hash(&self) -> (r: OrderHashResponse)
        ensures
            r.order_hash@ == hex_encoded(self.immutables.order_hash@),
            hex_decoded(r.order_hash@) == self.immutables.order_hash@,
    {
        proof {
            crate::hex_codec::lemma_hex_round_trip(self.immutables.order_hash@);
        }
        OrderHashResponse { order_hash: hex_encode(&self.immutables.order_hash) }
    }

    /// The stored timelock offsets.
    pub fn get_timelocks(&self) -> (r: TimelockResponse)
        ensures
            r.timelocks == self.immutables.timelocks,
    {
        TimelockResponse { timelocks: self.immutables.timelocks }
    }

    /// The clock value the host supplied for this query.
    pub fn get_current_time(&self, now: u64) -> (r: CurrentTimeResponse)
        ensures
            r.time == now,
    {
        CurrentTimeResponse { time: now }
    }

    /// Every stored detail of the order, hashes hex-encoded for the wire.
    pub fn get_order_details(&self) -> (r: GetOrderDetailsResponse)
        ensures
            r.deployed_at == self.state.deployed_at,
            r.rescue_delay == self.state.rescue_delay,
            r.order_hash@ == hex_encoded(self.immutables.order_hash@),
            r.hashlock@ == hex_encoded(self.immutables.hashlock@),
            r.maker@ == self.immutables.maker@,
            r.taker@ == self.immutables.taker@,
            r.token.denom@ == self.immutables.token.denom@,
            r.token.amount == self.immutables.token.amount,
            r.timelocks == self.immutables.timelocks,
    {
        GetOrderDetailsResponse {
            deployed_at: self.state.deployed_at,
            rescue_delay: self.state.rescue_delay,
            order_hash: hex_encode(&self.immutables.order_hash),
            hashlock: hex_encode(&self.immutables.hashlock),
            maker: clone_string(&self.immutables.maker),
            taker: clone_string(&self.immutables.taker),
            token: Coin {
                denom: clone_string(&self.immutables.token.denom),
                amount: self.immutables.token.amount,
            },
            timelocks: self.immutables.timelocks,
        }
    }

    /// A copy of the stored hashlock bytes.
    fn clone_hashlock(&self) -> (r: Vec<u8>)
        ensures
            r@ == self.immutables.hashlock@,
    {
        let r = self.immutables.hashlock.clone();
        proof {
            assert(r@ =~= self.immutables.hashlock@);
        }
        r
    }

    /// The payment of the full escrowed token to the given recipient.
    fn payout(&self, to: &String) -> (r: Transfer)
        ensures
            r.to_address@ == to@,
            r.amount.denom@ == self.immutables.token.denom@,
            r.amount.amount == self.immutables.token.amount,
    {
        Transfer {
            to_address: clone_string(to),
            amount: Coin {
                denom: clone_string(&self.immutables.token.denom),
                amount: self.immutables.token.amount,
            },
        }
    }
}

/// A copy of a string with the same characters.
pub(crate) fn clone_string(s: &String) -> (r: String)
    ensures
        r@ == s@,
{
    s.clone()
}

} // verus!
