use crate::math;
use vstd::prelude::*;

verus! {

/// Upper bound on the number of registry entries per owner.
pub const MAX_CONTRACTS: usize = 100;

/// Upper bound, in bytes, on the underlying asset ticker.
pub const MAX_TICKER_LENGTH: usize = 32;

/// Byte length of a ticker as the ledger stores it: the length of its UTF-8
/// encoding.
pub open spec fn ticker_bytes(s: Seq<char>) -> nat {
    vstd::utf8::encode_utf8(s).len()
}

/// The two kinds of option contract the engine settles.
#[derive(Clone, Copy, Debug, PartialEq, Eq, Structural)]
pub enum OptionType {
    Call,
    Put,
}

/// Lifecycle state of an option contract. Transitions run
/// Active -> Exercised -> Settled, each exactly once, and never backwards.
#[derive(Clone, Copy, Debug, PartialEq, Eq, Structural)]
pub enum ContractStatus {
    Active,
    Exercised,
    Settled,
}

/// The only lifecycle moves the engine ever makes: Active to Exercised
/// (by `exercise`) and Exercised to Settled (by `settle`). No other pair of
/// states is ever connected, so a contract can neither regress nor skip a
/// state.
pub open spec fn status_step(pre: ContractStatus, post: ContractStatus) -> bool {
    ||| (pre == ContractStatus::Active && post == ContractStatus::Exercised)
    ||| (pre == ContractStatus::Exercised && post == ContractStatus::Settled)
}

/// The side an owner takes in a contract.
#[derive(Clone, Copy, Debug, PartialEq, Eq, Structural)]
pub enum UserRole {
    Buyer,
    Seller,
}

/// Stable identifier of a contract: the two party identities together with
/// the buyer's sequence number at creation time. The ledger derives the
/// contract's storage address from exactly these three values, so they
/// identify it uniquely.
#[derive(Clone, Copy, Debug, PartialEq, Eq, Structural)]
pub struct ContractRef {
    pub buyer: u64,
    pub seller: u64,
    pub contract_id: u64,
}

/// One entry in an owner's registry: a contract the owner is party to,
/// the owner's side in it, and the owner's view of its lifecycle state.
#[derive(Clone, Copy, Debug, PartialEq, Eq, Structural)]
pub struct UserContract {
    pub contract_address: ContractRef,
    pub role: UserRole,
    pub status: ContractStatus,
}

/// Per-owner registry of contract positions.
///
/// `contract_count` increases by one for every contract the owner creates as
/// buyer and is used as the uniqueness discriminator in [`ContractRef`];
/// `contracts` holds one entry per position (either side), bounded by
/// [`MAX_CONTRACTS`].
#[derive(Clone, Debug)]
pub struct UserAccount {
    pub owner: u64,
    pub contract_count: u64,
    pub contracts: Vec<UserContract>,
}

impl UserAccount {
    /// Structural bounds that hold from initialization onwards: the registry
    /// never exceeds its capacity, and the sequence counter never exceeds the
    /// number of entries (the counter moves only together with an append).
    pub open spec fn wf(self) -> bool {
        &&& self.contracts@.len() <= MAX_CONTRACTS
        &&& self.contract_count <= self.contracts@.len()
    }
}

/// A balance-holding sub-account bound to exactly one owner identity.
///
/// The balance is denominated in native ledger units. Only the engine,
/// acting on the owner's behalf, moves value out of it; the functions in
/// [`crate::engine`] are the only ones that change the balance.
#[derive(Clone, Copy, Debug, PartialEq, Eq, Structural)]
pub struct EscrowAccount {
    pub owner: u64,
    pub balance: u64,
}

/// A bilateral option contract and its lifecycle state.
///
/// Terms are fixed at creation; `status` and the two pending balances are
/// the only fields that change afterwards.
#[derive(Clone, Debug)]
pub struct OptionContract {
    pub contract_id: u64,
    pub creation_date: i64,
    pub underlying_asset: String,
    pub num_units: u64,
    pub strike_price: u64,
    pub expiration_date: i64,
    pub option_type: OptionType,
    pub premium: u64,
    pub buyer: u64,
    pub seller: u64,
    pub buyer_escrow: u64,
    pub seller_escrow: u64,
    pub seller_pending_balance: u64,
    pub buyer_pending_balance: u64,
    pub status: ContractStatus,
    pub margin_requirement_bps: u16,
    pub margin_amount: u64,
    pub is_test: bool,
}

impl OptionContract {
    /// The stable identifier of this contract.
    pub open spec fn spec_key(self) -> ContractRef {
        ContractRef { buyer: self.buyer, seller: self.seller, contract_id: self.contract_id }
    }

    /// The stable identifier of this contract.
    pub fn key(&self) -> (r: ContractRef)
        ensures
            r == self.spec_key(),
    {
        ContractRef { buyer: self.buyer, seller: self.seller, contract_id: self.contract_id }
    }

    /// Invariant that holds at every observable boundary:
    /// the ticker fits, the margin is exactly the derived term of the fixed
    /// terms, the pending balances agree while the payoff is frozen, and they
    /// are zero in every other state.
    pub open spec fn wf(self) -> bool {
        &&& ticker_bytes(self.underlying_asset@) <= MAX_TICKER_LENGTH
        &&& !math::margin_overflows(self.num_units, self.strike_price, self.margin_requirement_bps)
        &&& self.margin_amount == math::margin_of(
            self.num_units,
            self.strike_price,
            self.margin_requirement_bps,
        )
        &&& self.seller_pending_balance == self.buyer_pending_balance
        &&& self.status != ContractStatus::Exercised ==> self.seller_pending_balance == 0
    }
}

} // verus!
