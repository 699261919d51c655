//! What passes between the ledger and the confidential-computation network:
//! the computations that are queued and the outputs that come back.

use vstd::prelude::*;
use crate::state::Pubkey;

verus! {

/// One argument of a queued computation.
#[derive(Clone, Copy, Debug)]
pub enum Argument {
    PlaintextU8(u8),
    PlaintextU64(u64),
    PlaintextU128(u128),
    /// A 64-bit value, encrypted.
    EncryptedU64([u8; 32]),
    /// The key that the values which follow are encrypted to.
    ArcisPubkey([u8; 32]),
    /// Bytes of an account: its address, the offset and the length.
    Account(Pubkey, u32, u32),
}

/// An account that the computation's callback is handed.
#[derive(Clone, Copy, Debug)]
pub struct CallbackAccount {
    pub pubkey: Pubkey,
    pub is_writable: bool,
}

/// The confidential circuits that the ledger can queue.
#[derive(Clone, Copy, Debug, PartialEq, Eq, Structural)]
pub enum Circuit {
    ShuffleAndDealCards,
    PlayerHit,
    PlayerDoubleDown,
    PlayerStand,
    DealerPlay,
    ResolveGame,
    CalculatePositionValue,
    OpenPosition,
    ClosePosition,
    AddCollateral,
    RemoveCollateral,
    Liquidate,
}

/// A computation for the ledger to queue.
pub struct QueuedComputation {
    /// Under which circuit's definition it runs.
    pub comp_def_offset: u32,
    pub computation_offset: u64,
    pub args: Vec<Argument>,
    pub callback_accounts: Vec<CallbackAccount>,
}

/// What a computation hands to its callback.
#[derive(Debug)]
pub enum ComputationOutputs<O> {
    Success(O),
    Failure,
}

/// Values encrypted to a key that a client shares with the network.
#[derive(Clone, Copy, Debug)]
pub struct SharedEncryptedStruct<const LEN: usize> {
    pub encryption_key: [u8; 32],
    pub nonce: u128,
    pub ciphertexts: [[u8; 32]; LEN],
}

/// Values encrypted to the network's own key.
#[derive(Clone, Copy, Debug)]
pub struct MXEEncryptedStruct<const LEN: usize> {
    pub nonce: u128,
    pub ciphertexts: [[u8; 32]; LEN],
}

/// The offset under which a circuit's definition is registered, by the
/// circuit's name.
pub uninterp spec fn comp_def_offset_of(name: Seq<char>) -> u32;

impl Circuit {
    /// The name that the circuit is registered under.
    pub open spec fn name_spec(self) -> &'static str {
        match self {
            Circuit::ShuffleAndDealCards => "shuffle_and_deal_cards",
            Circuit::PlayerHit => "player_hit",
            Circuit::PlayerDoubleDown => "player_double_down",
            Circuit::PlayerStand => "player_stand",
            Circuit::DealerPlay => "dealer_play",
            Circuit::ResolveGame => "resolve_game",
            Circuit::CalculatePositionValue => "calculate_position_value",
            Circuit::OpenPosition => "open_position",
            Circuit::ClosePosition => "close_position",
            Circuit::AddCollateral => "add_collateral",
            Circuit::RemoveCollateral => "remove_collateral",
            Circuit::Liquidate => "liquidate",
        }
    }

    /// The name that the circuit is registered under.
    #[verifier::when_used_as_spec(name_spec)]
    pub fn name(self) -> (s: &'static str)
        ensures
            s == self.name_spec(),
    {
        match self {
            Circuit::ShuffleAndDealCards => "shuffle_and_deal_cards",
            Circuit::PlayerHit => "player_hit",
            Circuit::PlayerDoubleDown => "player_double_down",
            Circuit::PlayerStand => "player_stand",
            Circuit::DealerPlay => "dealer_play",
            Circuit::ResolveGame => "resolve_game",
            Circuit::CalculatePositionValue => "calculate_position_value",
            Circuit::OpenPosition => "open_position",
            Circuit::ClosePosition => "close_position",
            Circuit::AddCollateral => "add_collateral",
            Circuit::RemoveCollateral => "remove_collateral",
            Circuit::Liquidate => "liquidate",
        }
    }

    /// The offset of the circuit's definition.
    pub open spec fn offset_spec(self) -> u32 {
        comp_def_offset_of(self.name_spec()@)
    }

    /// The offset of the circuit's definition.
    pub fn offset(self) -> (r: u32)
        ensures
            r == self.offset_spec(),
    {
        definition_offset(self.name())
    }
}

/// `arcium_anchor::comp_def_offset`: the offset of a computation definition,
/// which the outside crate derives from the SHA-256 digest of the circuit's
/// name. The contract claims only that the offset is a function of the name.
#[verifier::external_body]
fn definition_offset(name: &str) -> (r: u32)
    ensures
        r == comp_def_offset_of(name@),
{
    arcium_anchor::comp_def_offset(name)
}

/// The one account that a computation's callback writes.
pub open spec fn callback_accounts_for(account: Pubkey) -> Seq<CallbackAccount> {
    seq![CallbackAccount { pubkey: account, is_writable: true }]
}

/// Whether a queued computation is the given circuit's, with the given
/// arguments, and writes back to the given account alone.
pub open spec fn queues(
    q: QueuedComputation,
    circuit: Circuit,
    computation_offset: u64,
    args: Seq<Argument>,
    account: Pubkey,
) -> bool {
    &&& q.comp_def_offset == circuit.offset_spec()
    &&& q.computation_offset == computation_offset
    &&& q.args@ == args
    &&& q.callback_accounts@ == callback_accounts_for(account)
}

/// Puts a computation together that writes back to one account.
pub fn queue_for(circuit: Circuit, computation_offset: u64, args: Vec<Argument>, account: Pubkey) -> (q:
    QueuedComputation)
    ensures
        queues(q, circuit, computation_offset, args@, account),
{
    let mut callback_accounts = Vec::new();
    callback_accounts.push(CallbackAccount { pubkey: account, is_writable: true });
    QueuedComputation {
        comp_def_offset: circuit.offset(),
        computation_offset,
        args,
        callback_accounts,
    }
}

/// Thirty-two zero bytes: what stands in for an encrypted value that is not
/// there.
pub open spec fn zero_word() -> [u8; 32] {
    vstd::array::spec_array_fill_for_copy_type::<u8, 32>(0u8)
}

/// Whether two runs of 32 bytes are the same.
pub fn same_bytes(a: &[u8; 32], b: &[u8; 32]) -> (r: bool)
    ensures
        r == (*a == *b),
{
    let mut i: usize = 0;
    while i < 32
        invariant
            i <= 32,
            forall|k: int| 0 <= k < i ==> a@[k] == b@[k],
        decreases 32 - i,
    {
        if a[i] != b[i] {
            return false;
        }
        i = i + 1;
    }
    assert(a@ =~= b@);
    assert(*a =~= *b);
    true
}

} // verus!
