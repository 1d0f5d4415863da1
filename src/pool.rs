//! The token-pair store and the decisions of the pool: metadata resolution,
//! owner deposits, swap pricing and the commit or rollback of a swap once the
//! outbound transfer is known to have succeeded or failed.
//!
//! Every outbound call (a metadata query, a token transfer) is made by the
//! host around this library: the library says which call to make and, in the
//! matching callback, what the call's outcome does to the pool.
use crate::pricing::{quote, quote_spec, ratio, ratio_spec};
use vstd::prelude::*;

verus! {

/// Why a call on the pool was refused. Each one is raised before any outbound
/// call is made, and leaves the pool unchanged.
#[derive(Debug, Clone, Copy, PartialEq, Eq, Structural)]
pub enum AmmError {
    /// The address names neither of the two token slots.
    UnknownToken,
    /// A transfer notification came from a contract that is neither token.
    UnsupportedToken,
    /// An inbound transfer of nothing.
    ZeroAmount,
    /// The swap would pay out nothing.
    ZeroOutput,
    /// The swap would pay out more than the output reserve.
    InsufficientLiquidity,
    /// The metadata of a slot has not been resolved yet.
    MetadataUnavailable,
    /// A balance or the reserve product would not fit in a `u128`.
    Overflow,
}

/// Display metadata of a fungible token.
#[derive(Debug, PartialEq, Eq)]
pub struct TokenMetadata {
    pub name: String,
    pub symbol: String,
    pub decimals: u8,
}

impl TokenMetadata {
    pub fn new(name: String, symbol: String, decimals: u8) -> (r: Self)
        ensures
            r.name == name,
            r.symbol == symbol,
            r.decimals == decimals,
    {
        TokenMetadata { name, symbol, decimals }
    }
}

impl Clone for TokenMetadata {
    fn clone(&self) -> (r: Self)
        ensures
            r == *self,
    {
        TokenMetadata { name: self.name.clone(), symbol: self.symbol.clone(), decimals: self.decimals }
    }
}

/// One asset slot of the pool.
struct Token {
    address: String,
    balance: u128,
    metadata: Option<TokenMetadata>,
}

impl Token {
    fn new(address: String) -> (r: Self)
        ensures
            r.address == address,
            r.balance == 0,
            r.metadata.is_none(),
    {
        Token { address, balance: 0, metadata: None }
    }
}

/// What an accepted transfer notification asks the host to do.
#[derive(Debug, PartialEq, Eq)]
pub enum Outcome {
    /// The transfer is settled: hand this amount back to the sender.
    Value(u128),
    /// A swap was priced: make the transfer it describes, then report its
    /// outcome to `AMM::swap_callback`.
    Pending(SwapPlan),
}

/// A priced swap that waits for its outbound transfer. The pool's balances
/// are not touched until the transfer's outcome is reported.
#[derive(Debug, PartialEq, Eq)]
pub struct SwapPlan {
    /// Slot of the token that came in.
    pub token_in: usize,
    /// Slot of the token that goes out.
    pub token_out: usize,
    /// Contract of the token that goes out.
    pub token_out_address: String,
    /// Account that receives the output.
    pub receiver: String,
    /// Units of the output token to transfer.
    pub amount_out: u128,
    /// Balance of the input slot once the swap commits.
    pub new_balance_in: u128,
    /// Balance of the output slot once the swap commits.
    pub new_balance_out: u128,
    /// Units that came in, handed back if the transfer fails.
    pub amount: u128,
}

/// The balances of slots 0 and 1 after a swap's callback: the committed
/// values when the transfer succeeded, the unchanged ones when it failed.
pub open spec fn settled_balances(
    balances: (u128, u128),
    token_in: int,
    new_balance_in: u128,
    new_balance_out: u128,
    transfer_succeeded: bool,
) -> (u128, u128) {
    if !transfer_succeeded {
        balances
    } else if token_in == 0 {
        (new_balance_in, new_balance_out)
    } else {
        (new_balance_out, new_balance_in)
    }
}

/// A swap whose outbound transfer failed leaves both balances exactly as they
/// were before the swap was attempted, whatever balances it had priced.
pub proof fn lemma_failed_transfer_keeps_balances(
    balances: (u128, u128),
    token_in: int,
    new_balance_in: u128,
    new_balance_out: u128,
)
    ensures
        settled_balances(balances, token_in, new_balance_in, new_balance_out, false) == balances,
{
}

/// The balances of slots 0 and 1 after the owner deposits `amount` into
/// slot `token_in`.
pub open spec fn deposited_balances(balances: (u128, u128), token_in: int, amount: u128) -> (u128, u128) {
    if token_in == 0 {
        ((balances.0 + amount) as u128, balances.1)
    } else {
        (balances.0, (balances.1 + amount) as u128)
    }
}

/// An owner's deposit raises the balance of its slot by exactly the amount
/// deposited and leaves the other slot's balance as it was.
pub proof fn lemma_deposit_adds_to_one_slot(balances: (u128, u128), token_in: int, amount: u128)
    requires
        token_in == 0 || token_in == 1,
        token_in == 0 ==> balances.0 + amount <= u128::MAX,
        token_in == 1 ==> balances.1 + amount <= u128::MAX,
    ensures
        token_in == 0 ==> deposited_balances(balances, token_in, amount) == (
            (balances.0 + amount) as u128,
            balances.1,
        ) && deposited_balances(balances, token_in, amount).0 == balances.0 + amount,
        token_in == 1 ==> deposited_balances(balances, token_in, amount) == (
            balances.0,
            (balances.1 + amount) as u128,
        ) && deposited_balances(balances, token_in, amount).1 == balances.1 + amount,
{
}

/// A two-asset pool with one liquidity owner.
pub struct AMM {
    owner: String,
    token_0: Token,
    token_1: Token,
}

impl AMM {
    closed spec fn slot(&self, i: int) -> Token {
        if i == 0 {
            self.token_0
        } else {
            self.token_1
        }
    }

    /// The owner's account.
    pub closed spec fn owner_id(&self) -> Seq<char> {
        self.owner@
    }

    /// The token contract of slot `i`.
    pub closed spec fn address(&self, i: int) -> Seq<char> {
        self.slot(i).address@
    }

    /// The accounted balance of slot `i`.
    pub closed spec fn balance(&self, i: int) -> u128 {
        self.slot(i).balance
    }

    /// The resolved metadata of slot `i`, if any.
    pub closed spec fn metadata(&self, i: int) -> Option<TokenMetadata> {
        self.slot(i).metadata
    }

    /// Both balances, slot 0 first.
    pub open spec fn balances(&self) -> (u128, u128) {
        (self.balance(0), self.balance(1))
    }

    /// The slot that a token contract stands for: slot 0 is tried first.
    pub open spec fn index_of(&self, token: Seq<char>) -> Option<usize> {
        if token == self.address(0) {
            Some(0usize)
        } else if token == self.address(1) {
            Some(1usize)
        } else {
            None
        }
    }

    /// Owner, addresses and metadata agree; balances may differ.
    pub open spec fn same_except_balances(&self, other: &AMM) -> bool {
        &&& self.owner_id() == other.owner_id()
        &&& self.address(0) == other.address(0)
        &&& self.address(1) == other.address(1)
        &&& self.metadata(0) == other.metadata(0)
        &&& self.metadata(1) == other.metadata(1)
    }

    /// What `swap` answers for a swap of `amount` into slot `token_in`
    /// on behalf of `sender`.
    pub open spec fn swap_result(
        &self,
        sender: Seq<char>,
        token_in: int,
        amount: u128,
        r: Result<SwapPlan, AmmError>,
    ) -> bool {
        let token_out = 1 - token_in;
        let reserve_in = self.balance(token_in);
        let reserve_out = self.balance(token_out);
        let out = quote_spec(reserve_in as int, reserve_out as int, amount as int);
        if amount == 0 {
            r == Err::<SwapPlan, AmmError>(AmmError::ZeroOutput)
        } else if reserve_in + amount > u128::MAX {
            r == Err::<SwapPlan, AmmError>(AmmError::Overflow)
        } else if out > reserve_out {
            r == Err::<SwapPlan, AmmError>(AmmError::InsufficientLiquidity)
        } else if out == 0 {
            r == Err::<SwapPlan, AmmError>(AmmError::ZeroOutput)
        } else {
            match r {
                Ok(plan) => {
                    &&& plan.token_in == token_in
                    &&& plan.token_out == token_out
                    &&& plan.token_out_address@ == self.address(token_out)
                    &&& plan.receiver@ == sender
                    &&& plan.amount_out == out
                    &&& plan.new_balance_in == reserve_in + amount
                    &&& plan.new_balance_out == reserve_out - out
                    &&& plan.amount == amount
                },
                Err(_) => false,
            }
        }
    }

    fn token(&self, i: usize) -> (t: &Token)
        requires
            i < 2,
        ensures
            *t == self.slot(i as int),
    {
        if i == 0 {
            &self.token_0
        } else {
            &self.token_1
        }
    }

    fn set_balance(&mut self, i: usize, value: u128)
        requires
            i < 2,
        ensures
            final(self).balance(i as int) == value,
            final(self).balance(1 - i) == old(self).balance(1 - i),
            final(self).same_except_balances(old(self)),
    {
        if i == 0 {
            self.token_0.balance = value;
        } else {
            self.token_1.balance = value;
        }
    }

    /// A pool owned by `owner` over the tokens `token_a` (slot 0) and
    /// `token_b` (slot 1), with empty balances and no metadata yet. The host
    /// then asks `update_metadata` for both tokens.
    pub fn new(owner: String, token_a: String, token_b: String) -> (r: AMM)
        ensures
            r.owner_id() == owner@,
            r.address(0) == token_a@,
            r.address(1) == token_b@,
            r.balance(0) == 0,
            r.balance(1) == 0,
            r.metadata(0).is_none(),
            r.metadata(1).is_none(),
    {
        AMM { owner, token_0: Token::new(token_a), token_1: Token::new(token_b) }
    }

    /// A pool rebuilt from stored parts: owner, then for slots 0 and 1 the
    /// token contract, the balance and the resolved metadata.
    pub fn restore(
        owner: String,
        token_a: String,
        token_b: String,
        balance_a: u128,
        balance_b: u128,
        metadata_a: Option<TokenMetadata>,
        metadata_b: Option<TokenMetadata>,
    ) -> (r: AMM)
        ensures
            r.owner_id() == owner@,
            r.address(0) == token_a@,
            r.address(1) == token_b@,
            r.balance(0) == balance_a,
            r.balance(1) == balance_b,
            r.metadata(0) == metadata_a,
            r.metadata(1) == metadata_b,
    {
        AMM {
            owner,
            token_0: Token { address: token_a, balance: balance_a, metadata: metadata_a },
            token_1: Token { address: token_b, balance: balance_b, metadata: metadata_b },
        }
    }

    /// The owner's account.
    pub fn owner(&self) -> (r: &String)
        ensures
            r@ == self.owner_id(),
    {
        &self.owner
    }

    /// The token contract of slot `index`.
    pub fn token_address(&self, index: usize) -> (r: &String)
        requires
            index < 2,
        ensures
            r@ == self.address(index as int),
    {
        &self.token(index).address
    }

    /// The balance of slot `index`.
    pub fn token_balance(&self, index: usize) -> (r: u128)
        requires
            index < 2,
        ensures
            r == self.balance(index as int),
    {
        self.token(index).balance
    }

    /// The resolved metadata of slot `index`, if any.
    pub fn token_metadata(&self, index: usize) -> (r: &Option<TokenMetadata>)
        requires
            index < 2,
        ensures
            *r == self.metadata(index as int),
    {
        &self.token(index).metadata
    }

    /// The slot that `token` stands for, if it is one of the two.
    pub fn get_token_index(&self, token: &String) -> (r: Option<usize>)
        ensures
            r == self.index_of(token@),
    {
        if *token == self.token_0.address {
            Some(0)
        } else if *token == self.token_1.address {
            Some(1)
        } else {
            None
        }
    }

    /// The slot whose metadata the host is to query from `token`; the answer
    /// is then handed to `metadata_callback` with that slot.
    pub fn update_metadata(&self, token: &String) -> (r: Result<usize, AmmError>)
        ensures
            r == (match self.index_of(token@) {
                Some(i) => Ok::<usize, AmmError>(i),
                None => Err(AmmError::UnknownToken),
            }),
    {
        match self.get_token_index(token) {
            Some(i) => Ok(i),
            None => Err(AmmError::UnknownToken),
        }
    }

    /// Records the answer of a metadata query for slot `index`. A failed
    /// query (`None`) leaves the slot as it was.
    pub fn metadata_callback(&mut self, call_result: Option<TokenMetadata>, index: usize)
        requires
            index < 2,
        ensures
            final(self).balances() == old(self).balances(),
            final(self).owner_id() == old(self).owner_id(),
            final(self).address(0) == old(self).address(0),
            final(self).address(1) == old(self).address(1),
            final(self).metadata(index as int) == (match call_result {
                Some(m) => Some(m),
                None => old(self).metadata(index as int),
            }),
            final(self).metadata(1 - index) == old(self).metadata(1 - index),
            call_result.is_none() ==> *final(self) == *old(self),
    {
        match call_result {
            Some(m) => {
                if index == 0 {
                    self.token_0.metadata = Some(m);
                } else {
                    self.token_1.metadata = Some(m);
                }
            },
            None => {},
        }
    }

    /// The metadata of the slot that `token` stands for.
    pub fn get_metadata(&self, token: &String) -> (r: Result<TokenMetadata, AmmError>)
        ensures
            r == (match self.index_of(token@) {
                None => Err(AmmError::UnknownToken),
                Some(i) => match self.metadata(i as int) {
                    Some(m) => Ok::<TokenMetadata, AmmError>(m),
                    None => Err(AmmError::MetadataUnavailable),
                },
            }),
    {
        match self.get_token_index(token) {
            None => Err(AmmError::UnknownToken),
            Some(i) => match &self.token(i).metadata {
                Some(m) => Ok(m.clone()),
                None => Err(AmmError::MetadataUnavailable),
            },
        }
    }

    /// The balance of the slot that `token` stands for.
    pub fn get_balance(&self, token: &String) -> (r: Result<u128, AmmError>)
        ensures
            r == (match self.index_of(token@) {
                None => Err(AmmError::UnknownToken),
                Some(i) => Ok::<u128, AmmError>(self.balance(i as int)),
            }),
    {
        match self.get_token_index(token) {
            None => Err(AmmError::UnknownToken),
            Some(i) => Ok(self.token(i).balance),
        }
    }

    /// The product of both balances in whole display units, once the
    /// metadata of both slots is known.
    pub fn get_ratio(&self) -> (r: Result<u128, AmmError>)
        ensures
            r == (match (self.metadata(0), self.metadata(1)) {
                (Some(m0), Some(m1)) => {
                    let v = ratio_spec(
                        self.balance(0) as int,
                        self.balance(1) as int,
                        m0.decimals as nat,
                        m1.decimals as nat,
                    );
                    if v <= u128::MAX {
                        Ok::<u128, AmmError>(v as u128)
                    } else {
                        Err(AmmError::Overflow)
                    }
                },
                _ => Err(AmmError::MetadataUnavailable),
            }),
    {
        let d0 = match &self.token_0.metadata {
            Some(m) => m.decimals,
            None => {
                return Err(AmmError::MetadataUnavailable);
            },
        };
        let d1 = match &self.token_1.metadata {
            Some(m) => m.decimals,
            None => {
                return Err(AmmError::MetadataUnavailable);
            },
        };
        match ratio(self.token_0.balance, self.token_1.balance, d0, d1) {
            Some(v) => Ok(v),
            None => Err(AmmError::Overflow),
        }
    }
    /// Adds an owner's deposit to slot `token_in`.
    fn owner_deposit(&mut self, token_in: usize, amount: u128)
        requires
            token_in < 2,
            old(self).balance(token_in as int) + amount <= u128::MAX,
        ensures
            final(self).balance(token_in as int) == old(self).balance(token_in as int) + amount,
            final(self).balance(1 - token_in) == old(self).balance(1 - token_in),
            final(self).balances() == deposited_balances(old(self).balances(), token_in as int, amount),
            final(self).same_except_balances(old(self)),
    {
        let b = self.token(token_in).balance;
        self.set_balance(token_in, b + amount);
    }

    /// Prices a swap of `amount` units into slot `token_in` for
    /// `sender_id`, without touching the pool: the first phase of a swap.
    pub fn swap(&self, sender_id: &String, token_in: usize, amount: u128) -> (r: Result<SwapPlan, AmmError>)
        requires
            token_in < 2,
        ensures
            self.swap_result(sender_id@, token_in as int, amount, r),
    {
        let token_out: usize = 1 - token_in;
        let reserve_in = self.token(token_in).balance;
        let reserve_out = self.token(token_out).balance;
        if amount == 0 {
            return Err(AmmError::ZeroOutput);
        }
        if reserve_in > u128::MAX - amount {
            return Err(AmmError::Overflow);
        }
        let new_balance_in = reserve_in + amount;
        let amount_out = quote(reserve_in, reserve_out, amount);
        if amount_out > reserve_out {
            return Err(AmmError::InsufficientLiquidity);
        }
        if amount_out == 0 {
            return Err(AmmError::ZeroOutput);
        }
        Ok(
            SwapPlan {
                token_in,
                token_out,
                token_out_address: self.token(token_out).address.clone(),
                receiver: sender_id.clone(),
                amount_out,
                new_balance_in,
                new_balance_out: reserve_out - amount_out,
                amount,
            },
        )
    }

    /// The one entry point for inbound transfers: `predecessor_id` is the
    /// token contract that delivered `amount` units on behalf of
    /// `sender_id`. The owner's transfers are deposits, committed at once;
    /// anyone else's are swaps, priced here and committed by
    /// `swap_callback`. The message is not read.
    pub fn ft_on_transfer(&mut self, predecessor_id: &String, sender_id: &String, amount: u128, msg: String) -> (r: Result<Outcome, AmmError>)
        ensures
            match old(self).index_of(predecessor_id@) {
                None => r == Err::<Outcome, AmmError>(AmmError::UnsupportedToken) && *final(self) == *old(self),
                Some(i) => if amount == 0 {
                    r == Err::<Outcome, AmmError>(AmmError::ZeroAmount) && *final(self) == *old(self)
                } else if sender_id@ == old(self).owner_id() {
                    if old(self).balance(i as int) + amount > u128::MAX {
                        r == Err::<Outcome, AmmError>(AmmError::Overflow) && *final(self) == *old(self)
                    } else {
                        &&& r == Ok::<Outcome, AmmError>(Outcome::Value(0))
                        &&& final(self).balance(i as int) == old(self).balance(i as int) + amount
                        &&& final(self).balance(1 - i) == old(self).balance(1 - i)
                        &&& final(self).balances() == deposited_balances(old(self).balances(), i as int, amount)
                        &&& final(self).same_except_balances(old(self))
                    }
                } else {
                    &&& *final(self) == *old(self)
                    &&& match r {
                        Ok(Outcome::Pending(plan)) => old(self).swap_result(sender_id@, i as int, amount, Ok(plan)),
                        Ok(Outcome::Value(_)) => false,
                        Err(e) => old(self).swap_result(sender_id@, i as int, amount, Err(e)),
                    }
                },
            },
    {
        let token_in = match self.get_token_index(predecessor_id) {
            Some(i) => i,
            None => {
                return Err(AmmError::UnsupportedToken);
            },
        };
        if amount == 0 {
            return Err(AmmError::ZeroAmount);
        }
        if *sender_id == self.owner {
            if self.token(token_in).balance > u128::MAX - amount {
                return Err(AmmError::Overflow);
            }
            self.owner_deposit(token_in, amount);
            Ok(Outcome::Value(0))
        } else {
            match self.swap(sender_id, token_in, amount) {
                Ok(plan) => Ok(Outcome::Pending(plan)),
                Err(e) => Err(e),
            }
        }
    }

    /// The second phase of a swap into slot `token_in`, run once its
    /// outbound transfer is known: on success the precomputed balances are
    /// committed and nothing is handed back; on failure the pool is left as
    /// it was and the whole `amount` is handed back to the sender. The
    /// balances committed are those the swap was priced with, even where a
    /// deposit or another swap committed in between.
    pub fn swap_callback(
        &mut self,
        token_in: usize,
        balance_in: u128,
        balance_out: u128,
        amount: u128,
        transfer_succeeded: bool,
    ) -> (refund: u128)
        requires
            token_in < 2,
        ensures
            final(self).balances() == settled_balances(
                old(self).balances(),
                token_in as int,
                balance_in,
                balance_out,
                transfer_succeeded,
            ),
            final(self).same_except_balances(old(self)),
            !transfer_succeeded ==> *final(self) == *old(self),
            refund == (if transfer_succeeded { 0 } else { amount }),
    {
        if !transfer_succeeded {
            amount
        } else {
            self.set_balance(token_in, balance_in);
            self.set_balance(1 - token_in, balance_out);
            0
        }
    }
}

} // verus!
