//! The position record and the steps that open, value, adjust, close and
//! liquidate it. Size and collateral are held encrypted: each step either
//! queues a confidential computation on them or takes one's output into the
//! record.

use vstd::prelude::*;
use crate::error::ErrorCode;
use crate::mpc::{
    Argument, Circuit, ComputationOutputs, QueuedComputation, SharedEncryptedStruct, queue_for,
    queues, same_bytes, zero_word,
};
use crate::state::Pubkey;

verus! {

/// Where the encrypted size starts in the position's account.
pub const SIZE_OFFSET: u32 = 49;

/// Where the encrypted collateral starts in the position's account.
pub const COLLATERAL_OFFSET: u32 = 81;

/// Bytes of one encrypted value.
pub const CIPHERTEXT_LEN: u32 = 32;

#[derive(Clone, Copy, Debug, PartialEq, Eq, Structural)]
pub enum PositionSide {
    Long,
    Short,
}

impl PositionSide {
    /// The number that stands for the side: 0 for long, 1 for short.
    pub open spec fn code_spec(self) -> u8 {
        match self {
            PositionSide::Long => 0,
            PositionSide::Short => 1,
        }
    }

    /// The number that stands for the side.
    #[verifier::when_used_as_spec(code_spec)]
    pub fn code(self) -> (c: u8)
        ensures
            c == self.code_spec(),
    {
        match self {
            PositionSide::Long => 0,
            PositionSide::Short => 1,
        }
    }

    /// The side that a number stands for, if any.
    pub open spec fn from_code_spec(code: u8) -> Option<PositionSide> {
        if code == 0 {
            Some(PositionSide::Long)
        } else if code == 1 {
            Some(PositionSide::Short)
        } else {
            None
        }
    }

    /// Reads a side from its number.
    #[verifier::when_used_as_spec(from_code_spec)]
    pub fn from_code(code: u8) -> (s: Option<PositionSide>)
        ensures
            s == PositionSide::from_code_spec(code),
    {
        if code == 0 {
            Some(PositionSide::Long)
        } else if code == 1 {
            Some(PositionSide::Short)
        } else {
            None
        }
    }
}

/// A position whose size and collateral are held encrypted. Closing and
/// liquidating zero both; a position counts as closed once its encrypted size
/// is all zero.
#[derive(Clone, Copy, Debug)]
pub struct Position {
    pub owner: Pubkey,
    pub position_id: u64,
    pub side: PositionSide,
    /// Readable by the owner only.
    pub size_usd_encrypted: [u8; 32],
    /// Readable by the owner only.
    pub collateral_usd_encrypted: [u8; 32],
    pub entry_price: u64,
    pub open_time: i64,
    pub update_time: i64,
    /// The key that the owner's values are encrypted to.
    pub owner_enc_pubkey: [u8; 32],
    pub size_nonce: u128,
    pub collateral_nonce: u128,
    /// Who asked for the liquidation that is under way.
    pub liquidator: Pubkey,
    pub bump: u8,
}

pub struct PositionOpenedEvent {
    pub position_id: u64,
    pub owner: Pubkey,
    pub side: PositionSide,
    pub entry_price: u64,
    pub size_encrypted: [u8; 32],
    pub size_nonce: u128,
    pub collateral_encrypted: [u8; 32],
    pub collateral_nonce: u128,
}

pub struct PositionValueCalculatedEvent {
    pub position_id: u64,
    pub current_value_encrypted: [u8; 32],
    pub pnl_encrypted: [u8; 32],
    pub value_nonce: u128,
}

pub struct PositionClosedEvent {
    pub position_id: u64,
    pub owner: Pubkey,
    pub realized_pnl_encrypted: [u8; 32],
    pub final_balance_encrypted: [u8; 32],
    pub can_close_encrypted: [u8; 32],
    pub nonce: u128,
}

pub struct CollateralAddedEvent {
    pub position_id: u64,
    pub owner: Pubkey,
    pub new_collateral_encrypted: [u8; 32],
    pub new_leverage_encrypted: [u8; 32],
    pub nonce: u128,
}

pub struct CollateralRemovedEvent {
    pub position_id: u64,
    pub owner: Pubkey,
    pub new_collateral_encrypted: [u8; 32],
    pub removed_amount_encrypted: [u8; 32],
    pub new_leverage_encrypted: [u8; 32],
    pub nonce: u128,
}

pub struct PositionLiquidatedEvent {
    pub position_id: u64,
    pub owner: Pubkey,
    pub liquidator: Pubkey,
    pub is_liquidatable_encrypted: [u8; 32],
    pub remaining_collateral_encrypted: [u8; 32],
    pub penalty_encrypted: [u8; 32],
    pub nonce: u128,
}

/// What the opening computation hands back: size and collateral as admitted.
pub struct OpenPositionOutput {
    pub size: SharedEncryptedStruct<1>,
    pub collateral: SharedEncryptedStruct<1>,
}

impl Position {
    /// Whether the position was closed or liquidated.
    pub open spec fn is_closed(self) -> bool {
        self.size_usd_encrypted == zero_word()
    }

    /// Why a step on the position is refused, if so, for a caller who must
    /// own it: a stranger is turned away before a closed position is.
    pub open spec fn owner_refusal(self, caller: Pubkey) -> Option<ErrorCode> {
        if self.owner != caller {
            Some(ErrorCode::InvalidPositionOwner)
        } else if self.is_closed() {
            Some(ErrorCode::InvalidMove)
        } else {
            None
        }
    }

    /// Tells whether the position was closed or liquidated.
    pub fn closed(&self) -> (r: bool)
        ensures
            r == self.is_closed(),
    {
        let zero = [0u8; 32];
        same_bytes(&self.size_usd_encrypted, &zero)
    }

    /// Tells why a step is refused for a caller who must own the position.
    fn check_owner(&self, caller: &Pubkey) -> (r: Result<(), ErrorCode>)
        ensures
            r == match self.owner_refusal(*caller) {
                Some(e) => Err::<(), ErrorCode>(e),
                None => Ok(()),
            },
    {
        if !same_bytes(&self.owner, caller) {
            return Err(ErrorCode::InvalidPositionOwner);
        }
        if self.closed() {
            return Err(ErrorCode::InvalidMove);
        }
        Ok(())
    }
}

/// The encrypted size as an argument: the owner's key, the nonce, and where
/// the bytes lie in the account.
pub open spec fn size_arguments(position: Position, address: Pubkey) -> Seq<Argument> {
    seq![
        Argument::ArcisPubkey(position.owner_enc_pubkey),
        Argument::PlaintextU128(position.size_nonce),
        Argument::Account(address, SIZE_OFFSET, CIPHERTEXT_LEN),
    ]
}

/// The encrypted collateral as an argument.
pub open spec fn collateral_arguments(position: Position, address: Pubkey) -> Seq<Argument> {
    seq![
        Argument::ArcisPubkey(position.owner_enc_pubkey),
        Argument::PlaintextU128(position.collateral_nonce),
        Argument::Account(address, COLLATERAL_OFFSET, CIPHERTEXT_LEN),
    ]
}

/// A value that the caller encrypted, as an argument.
pub open spec fn client_value_arguments(client_pubkey: [u8; 32], nonce: u128, value: [u8; 32])
    -> Seq<Argument> {
    seq![
        Argument::ArcisPubkey(client_pubkey),
        Argument::PlaintextU128(nonce),
        Argument::EncryptedU64(value),
    ]
}

/// The arguments of the computations that value a position at a price:
/// whom the output is for, size, collateral, entry price, current price and
/// side.
pub open spec fn valuation_arguments(
    position: Position,
    address: Pubkey,
    current_price: u64,
    client_pubkey: [u8; 32],
    nonce: u128,
) -> Seq<Argument> {
    seq![Argument::ArcisPubkey(client_pubkey), Argument::PlaintextU128(nonce)] + size_arguments(
        position,
        address,
    ) + collateral_arguments(position, address) + seq![
        Argument::PlaintextU64(position.entry_price),
        Argument::PlaintextU64(current_price),
        Argument::PlaintextU8(position.side.code_spec()),
    ]
}

/// The arguments of an opening: size, then collateral, both encrypted by
/// the caller.
pub open spec fn opening_arguments(
    client_pubkey: [u8; 32],
    size_nonce: u128,
    size_encrypted: [u8; 32],
    collateral_nonce: u128,
    collateral_encrypted: [u8; 32],
) -> Seq<Argument> {
    client_value_arguments(client_pubkey, size_nonce, size_encrypted) + client_value_arguments(
        client_pubkey,
        collateral_nonce,
        collateral_encrypted,
    )
}

/// The arguments of a change of collateral: the collateral there is, the
/// amount that the caller encrypted, and the size.
pub open spec fn adjustment_arguments(
    position: Position,
    address: Pubkey,
    client_pubkey: [u8; 32],
    amount_nonce: u128,
    amount_encrypted: [u8; 32],
) -> Seq<Argument> {
    collateral_arguments(position, address) + client_value_arguments(
        client_pubkey,
        amount_nonce,
        amount_encrypted,
    ) + size_arguments(position, address)
}

/// Appends the encrypted size as an argument.
fn push_size(args: &mut Vec<Argument>, position: &Position, address: Pubkey)
    ensures
        final(args)@ == old(args)@ + size_arguments(*position, address),
{
    args.push(Argument::ArcisPubkey(position.owner_enc_pubkey));
    args.push(Argument::PlaintextU128(position.size_nonce));
    args.push(Argument::Account(address, SIZE_OFFSET, CIPHERTEXT_LEN));
}

/// Appends the encrypted collateral as an argument.
fn push_collateral(args: &mut Vec<Argument>, position: &Position, address: Pubkey)
    ensures
        final(args)@ == old(args)@ + collateral_arguments(*position, address),
{
    args.push(Argument::ArcisPubkey(position.owner_enc_pubkey));
    args.push(Argument::PlaintextU128(position.collateral_nonce));
    args.push(Argument::Account(address, COLLATERAL_OFFSET, CIPHERTEXT_LEN));
}

/// Appends a value that the caller encrypted as an argument.
fn push_client_value(
    args: &mut Vec<Argument>,
    client_pubkey: [u8; 32],
    nonce: u128,
    value: [u8; 32],
)
    ensures
        final(args)@ == old(args)@ + client_value_arguments(client_pubkey, nonce, value),
{
    args.push(Argument::ArcisPubkey(client_pubkey));
    args.push(Argument::PlaintextU128(nonce));
    args.push(Argument::EncryptedU64(value));
}

/// Builds the arguments of a valuation.
fn build_valuation_arguments(
    position: &Position,
    address: Pubkey,
    current_price: u64,
    client_pubkey: [u8; 32],
    nonce: u128,
) -> (args: Vec<Argument>)
    ensures
        args@ == valuation_arguments(*position, address, current_price, client_pubkey, nonce),
{
    let mut args = Vec::new();
    args.push(Argument::ArcisPubkey(client_pubkey));
    args.push(Argument::PlaintextU128(nonce));
    push_size(&mut args, position, address);
    push_collateral(&mut args, position, address);
    args.push(Argument::PlaintextU64(position.entry_price));
    args.push(Argument::PlaintextU64(current_price));
    args.push(Argument::PlaintextU8(position.side.code()));
    args
}

/// Builds the arguments of a change of collateral.
fn build_adjustment_arguments(
    position: &Position,
    address: Pubkey,
    client_pubkey: [u8; 32],
    amount_nonce: u128,
    amount_encrypted: [u8; 32],
) -> (args: Vec<Argument>)
    ensures
        args@ == adjustment_arguments(
            *position,
            address,
            client_pubkey,
            amount_nonce,
            amount_encrypted,
        ),
{
    let mut args = Vec::new();
    push_collateral(&mut args, position, address);
    push_client_value(&mut args, client_pubkey, amount_nonce, amount_encrypted);
    push_size(&mut args, position, address);
    args
}

/// The record of a position that was just opened.
pub open spec fn new_position(
    owner: Pubkey,
    bump: u8,
    position_id: u64,
    side: PositionSide,
    entry_price: u64,
    size_encrypted: [u8; 32],
    collateral_encrypted: [u8; 32],
    client_pubkey: [u8; 32],
    size_nonce: u128,
    collateral_nonce: u128,
    now: i64,
) -> Position {
    Position {
        owner,
        position_id,
        side,
        size_usd_encrypted: size_encrypted,
        collateral_usd_encrypted: collateral_encrypted,
        entry_price,
        open_time: now,
        update_time: now,
        owner_enc_pubkey: client_pubkey,
        size_nonce,
        collateral_nonce,
        liquidator: zero_word(),
        bump,
    }
}

/// Opens a position for `owner` at time `now` and queues the computation
/// that admits its size and collateral. A side other than 0 or 1 is refused.
pub fn open_position(
    position_address: Pubkey,
    owner: Pubkey,
    bump: u8,
    computation_offset: u64,
    position_id: u64,
    side: u8,
    entry_price: u64,
    size_encrypted: [u8; 32],
    collateral_encrypted: [u8; 32],
    client_pubkey: [u8; 32],
    size_nonce: u128,
    collateral_nonce: u128,
    now: i64,
) -> (r: Result<(Position, QueuedComputation), ErrorCode>)
    ensures
        match PositionSide::from_code_spec(side) {
            None => r matches Err(ErrorCode::InvalidPositionSide),
            Some(s) => {
                &&& r matches Ok(opened)
                &&& opened.0 == new_position(
                    owner,
                    bump,
                    position_id,
                    s,
                    entry_price,
                    size_encrypted,
                    collateral_encrypted,
                    client_pubkey,
                    size_nonce,
                    collateral_nonce,
                    now,
                )
                &&& queues(
                    opened.1,
                    Circuit::OpenPosition,
                    computation_offset,
                    opening_arguments(
                        client_pubkey,
                        size_nonce,
                        size_encrypted,
                        collateral_nonce,
                        collateral_encrypted,
                    ),
                    position_address,
                )
            },
        },
{
    let side = match PositionSide::from_code(side) {
        Some(s) => s,
        None => {
            return Err(ErrorCode::InvalidPositionSide);
        },
    };
    let position = Position {
        owner,
        position_id,
        side,
        size_usd_encrypted: size_encrypted,
        collateral_usd_encrypted: collateral_encrypted,
        entry_price,
        open_time: now,
        update_time: now,
        owner_enc_pubkey: client_pubkey,
        size_nonce,
        collateral_nonce,
        liquidator: [0u8; 32],
        bump,
    };
    let mut args = Vec::new();
    push_client_value(&mut args, client_pubkey, size_nonce, size_encrypted);
    push_client_value(&mut args, client_pubkey, collateral_nonce, collateral_encrypted);
    Ok((position, queue_for(Circuit::OpenPosition, computation_offset, args, position_address)))
}

/// The record once the opening was admitted: size and collateral as the
/// computation handed them back.
pub open spec fn after_open(position: Position, o: OpenPositionOutput) -> Position {
    Position {
        size_usd_encrypted: o.size.ciphertexts[0],
        collateral_usd_encrypted: o.collateral.ciphertexts[0],
        size_nonce: o.size.nonce,
        collateral_nonce: o.collateral.nonce,
        ..position
    }
}

/// Takes the admitted size and collateral into the record.
pub fn open_position_callback(
    position: &mut Position,
    output: ComputationOutputs<OpenPositionOutput>,
) -> (r: Result<PositionOpenedEvent, ErrorCode>)
    ensures
        match output {
            ComputationOutputs::Failure => r matches Err(ErrorCode::AbortedComputation),
            ComputationOutputs::Success(o) => if old(position).is_closed() {
                r matches Err(ErrorCode::InvalidMove)
            } else {
                &&& *final(position) == after_open(*old(position), o)
                &&& r matches Ok(e)
                &&& e.position_id == old(position).position_id
                &&& e.owner == old(position).owner
                &&& e.side == old(position).side
                &&& e.entry_price == old(position).entry_price
                &&& e.size_encrypted == o.size.ciphertexts[0]
                &&& e.size_nonce == o.size.nonce
                &&& e.collateral_encrypted == o.collateral.ciphertexts[0]
                &&& e.collateral_nonce == o.collateral.nonce
            },
        },
        r is Err ==> *final(position) == *old(position),
{
    let o = match output {
        ComputationOutputs::Success(o) => o,
        ComputationOutputs::Failure => {
            return Err(ErrorCode::AbortedComputation);
        },
    };
    if position.closed() {
        return Err(ErrorCode::InvalidMove);
    }
    position.size_usd_encrypted = o.size.ciphertexts[0];
    position.collateral_usd_encrypted = o.collateral.ciphertexts[0];
    position.size_nonce = o.size.nonce;
    position.collateral_nonce = o.collateral.nonce;
    Ok(
        PositionOpenedEvent {
            position_id: position.position_id,
            owner: position.owner,
            side: position.side,
            entry_price: position.entry_price,
            size_encrypted: o.size.ciphertexts[0],
            size_nonce: o.size.nonce,
            collateral_encrypted: o.collateral.ciphertexts[0],
            collateral_nonce: o.collateral.nonce,
        },
    )
}

/// Queues the valuation of a position at a price. Anyone may ask; a closed
/// position is refused.
pub fn calculate_position_value(
    position: &Position,
    position_address: Pubkey,
    computation_offset: u64,
    _position_id: u64,
    current_price: u64,
    client_pubkey: [u8; 32],
    nonce: u128,
) -> (r: Result<QueuedComputation, ErrorCode>)
    ensures
        position.is_closed() ==> r matches Err(ErrorCode::InvalidMove),
        !position.is_closed() ==> (r matches Ok(q) && queues(
            q,
            Circuit::CalculatePositionValue,
            computation_offset,
            valuation_arguments(*position, position_address, current_price, client_pubkey, nonce),
            position_address,
        )),
{
    if position.closed() {
        return Err(ErrorCode::InvalidMove);
    }
    let args = build_valuation_arguments(
        position,
        position_address,
        current_price,
        client_pubkey,
        nonce,
    );
    Ok(queue_for(Circuit::CalculatePositionValue, computation_offset, args, position_address))
}

/// Makes a valuation known: the encrypted value and the encrypted profit and
/// loss. The record stays as it is.
pub fn calculate_position_value_callback(
    position: &Position,
    output: ComputationOutputs<SharedEncryptedStruct<3>>,
) -> (r: Result<PositionValueCalculatedEvent, ErrorCode>)
    ensures
        match output {
            ComputationOutputs::Failure => r matches Err(ErrorCode::AbortedComputation),
            ComputationOutputs::Success(o) => if position.is_closed() {
                r matches Err(ErrorCode::InvalidMove)
            } else {
                &&& r matches Ok(e)
                &&& e.position_id == position.position_id
                &&& e.current_value_encrypted == o.ciphertexts[0]
                &&& e.pnl_encrypted == o.ciphertexts[1]
                &&& e.value_nonce == o.nonce
            },
        },
{
    let o = match output {
        ComputationOutputs::Success(o) => o,
        ComputationOutputs::Failure => {
            return Err(ErrorCode::AbortedComputation);
        },
    };
    if position.closed() {
        return Err(ErrorCode::InvalidMove);
    }
    Ok(
        PositionValueCalculatedEvent {
            position_id: position.position_id,
            current_value_encrypted: o.ciphertexts[0],
            pnl_encrypted: o.ciphertexts[1],
            value_nonce: o.nonce,
        },
    )
}

/// Queues the closing of a position at a price. Only the owner may close,
/// and only once.
pub fn close_position(
    position: &Position,
    position_address: Pubkey,
    owner: Pubkey,
    computation_offset: u64,
    _position_id: u64,
    current_price: u64,
    client_pubkey: [u8; 32],
    nonce: u128,
) -> (r: Result<QueuedComputation, ErrorCode>)
    ensures
        match position.owner_refusal(owner) {
            Some(e) => r matches Err(f) && f == e,
            None => r matches Ok(q) && queues(
                q,
                Circuit::ClosePosition,
                computation_offset,
                valuation_arguments(
                    *position,
                    position_address,
                    current_price,
                    client_pubkey,
                    nonce,
                ),
                position_address,
            ),
        },
{
    position.check_owner(&owner)?;
    let args = build_valuation_arguments(
        position,
        position_address,
        current_price,
        client_pubkey,
        nonce,
    );
    Ok(queue_for(Circuit::ClosePosition, computation_offset, args, position_address))
}

/// The record of a position that was closed at time `now`: size and
/// collateral are zeroed.
pub open spec fn after_close(position: Position, now: i64) -> Position {
    Position {
        size_usd_encrypted: zero_word(),
        collateral_usd_encrypted: zero_word(),
        update_time: now,
        ..position
    }
}

/// Closes the position and makes the realized amounts known.
pub fn close_position_callback(
    position: &mut Position,
    output: ComputationOutputs<SharedEncryptedStruct<3>>,
    now: i64,
) -> (r: Result<PositionClosedEvent, ErrorCode>)
    ensures
        match output {
            ComputationOutputs::Failure => r matches Err(ErrorCode::AbortedComputation),
            ComputationOutputs::Success(o) => if old(position).is_closed() {
                r matches Err(ErrorCode::InvalidMove)
            } else {
                &&& *final(position) == after_close(*old(position), now)
                &&& final(position).is_closed()
                &&& r matches Ok(e)
                &&& e.position_id == old(position).position_id
                &&& e.owner == old(position).owner
                &&& e.realized_pnl_encrypted == o.ciphertexts[0]
                &&& e.final_balance_encrypted == o.ciphertexts[1]
                &&& e.can_close_encrypted == o.ciphertexts[2]
                &&& e.nonce == o.nonce
            },
        },
        r is Err ==> *final(position) == *old(position),
{
    let o = match output {
        ComputationOutputs::Success(o) => o,
        ComputationOutputs::Failure => {
            return Err(ErrorCode::AbortedComputation);
        },
    };
    if position.closed() {
        return Err(ErrorCode::InvalidMove);
    }
    position.size_usd_encrypted = [0u8; 32];
    position.collateral_usd_encrypted = [0u8; 32];
    position.update_time = now;
    Ok(
        PositionClosedEvent {
            position_id: position.position_id,
            owner: position.owner,
            realized_pnl_encrypted: o.ciphertexts[0],
            final_balance_encrypted: o.ciphertexts[1],
            can_close_encrypted: o.ciphertexts[2],
            nonce: o.nonce,
        },
    )
}

/// Queues an addition of collateral. Only the owner may add, to an open
/// position.
pub fn add_collateral(
    position: &Position,
    position_address: Pubkey,
    owner: Pubkey,
    computation_offset: u64,
    _position_id: u64,
    additional_collateral_encrypted: [u8; 32],
    client_pubkey: [u8; 32],
    additional_collateral_nonce: u128,
) -> (r: Result<QueuedComputation, ErrorCode>)
    ensures
        match position.owner_refusal(owner) {
            Some(e) => r matches Err(f) && f == e,
            None => r matches Ok(q) && queues(
                q,
                Circuit::AddCollateral,
                computation_offset,
                adjustment_arguments(
                    *position,
                    position_address,
                    client_pubkey,
                    additional_collateral_nonce,
                    additional_collateral_encrypted,
                ),
                position_address,
            ),
        },
{
    position.check_owner(&owner)?;
    let args = build_adjustment_arguments(
        position,
        position_address,
        client_pubkey,
        additional_collateral_nonce,
        additional_collateral_encrypted,
    );
    Ok(queue_for(Circuit::AddCollateral, computation_offset, args, position_address))
}

/// The record with a new encrypted collateral, as of time `now`.
pub open spec fn with_collateral(position: Position, collateral: [u8; 32], nonce: u128, now: i64)
    -> Position {
    Position {
        collateral_usd_encrypted: collateral,
        collateral_nonce: nonce,
        update_time: now,
        ..position
    }
}

/// Takes the collateral after an addition into the record.
pub fn add_collateral_callback(
    position: &mut Position,
    output: ComputationOutputs<SharedEncryptedStruct<2>>,
    now: i64,
) -> (r: Result<CollateralAddedEvent, ErrorCode>)
    ensures
        match output {
            ComputationOutputs::Failure => r matches Err(ErrorCode::AbortedComputation),
            ComputationOutputs::Success(o) => if old(position).is_closed() {
                r matches Err(ErrorCode::InvalidMove)
            } else {
                &&& *final(position) == with_collateral(
                    *old(position),
                    o.ciphertexts[0],
                    o.nonce,
                    now,
                )
                &&& r matches Ok(e)
                &&& e.position_id == old(position).position_id
                &&& e.owner == old(position).owner
                &&& e.new_collateral_encrypted == o.ciphertexts[0]
                &&& e.new_leverage_encrypted == o.ciphertexts[1]
                &&& e.nonce == o.nonce
            },
        },
        r is Err ==> *final(position) == *old(position),
{
    let o = match output {
        ComputationOutputs::Success(o) => o,
        ComputationOutputs::Failure => {
            return Err(ErrorCode::AbortedComputation);
        },
    };
    if position.closed() {
        return Err(ErrorCode::InvalidMove);
    }
    position.collateral_usd_encrypted = o.ciphertexts[0];
    position.collateral_nonce = o.nonce;
    position.update_time = now;
    Ok(
        CollateralAddedEvent {
            position_id: position.position_id,
            owner: position.owner,
            new_collateral_encrypted: o.ciphertexts[0],
            new_leverage_encrypted: o.ciphertexts[1],
            nonce: o.nonce,
        },
    )
}

/// Queues a removal of collateral. Only the owner may remove, from an open
/// position.
pub fn remove_collateral(
    position: &Position,
    position_address: Pubkey,
    owner: Pubkey,
    computation_offset: u64,
    _position_id: u64,
    remove_amount_encrypted: [u8; 32],
    client_pubkey: [u8; 32],
    remove_amount_nonce: u128,
) -> (r: Result<QueuedComputation, ErrorCode>)
    ensures
        match position.owner_refusal(owner) {
            Some(e) => r matches Err(f) && f == e,
            None => r matches Ok(q) && queues(
                q,
                Circuit::RemoveCollateral,
                computation_offset,
                adjustment_arguments(
                    *position,
                    position_address,
                    client_pubkey,
                    remove_amount_nonce,
                    remove_amount_encrypted,
                ),
                position_address,
            ),
        },
{
    position.check_owner(&owner)?;
    let args = build_adjustment_arguments(
        position,
        position_address,
        client_pubkey,
        remove_amount_nonce,
        remove_amount_encrypted,
    );
    Ok(queue_for(Circuit::RemoveCollateral, computation_offset, args, position_address))
}

/// Whether a removal's output says that the removal was granted: the first
/// byte of its third value is one.
pub open spec fn removal_granted(o: SharedEncryptedStruct<4>) -> bool {
    o.ciphertexts[2][0] == 1
}

/// Takes the collateral after a removal into the record. A removal that was
/// not granted fails for want of collateral and changes nothing.
pub fn remove_collateral_callback(
    position: &mut Position,
    output: ComputationOutputs<SharedEncryptedStruct<4>>,
    now: i64,
) -> (r: Result<CollateralRemovedEvent, ErrorCode>)
    ensures
        match output {
            ComputationOutputs::Failure => r matches Err(ErrorCode::AbortedComputation),
            ComputationOutputs::Success(o) => if old(position).is_closed() {
                r matches Err(ErrorCode::InvalidMove)
            } else if !removal_granted(o) {
                r matches Err(ErrorCode::InsufficientCollateral)
            } else {
                &&& *final(position) == with_collateral(
                    *old(position),
                    o.ciphertexts[0],
                    o.nonce,
                    now,
                )
                &&& r matches Ok(e)
                &&& e.position_id == old(position).position_id
                &&& e.owner == old(position).owner
                &&& e.new_collateral_encrypted == o.ciphertexts[0]
                &&& e.removed_amount_encrypted == o.ciphertexts[1]
                &&& e.new_leverage_encrypted == o.ciphertexts[3]
                &&& e.nonce == o.nonce
            },
        },
        r is Err ==> *final(position) == *old(position),
{
    let o = match output {
        ComputationOutputs::Success(o) => o,
        ComputationOutputs::Failure => {
            return Err(ErrorCode::AbortedComputation);
        },
    };
    if position.closed() {
        return Err(ErrorCode::InvalidMove);
    }
    let can_remove = o.ciphertexts[2][0];
    if can_remove != 1 {
        return Err(ErrorCode::InsufficientCollateral);
    }
    position.collateral_usd_encrypted = o.ciphertexts[0];
    position.collateral_nonce = o.nonce;
    position.update_time = now;
    Ok(
        CollateralRemovedEvent {
            position_id: position.position_id,
            owner: position.owner,
            new_collateral_encrypted: o.ciphertexts[0],
            removed_amount_encrypted: o.ciphertexts[1],
            new_leverage_encrypted: o.ciphertexts[3],
            nonce: o.nonce,
        },
    )
}

/// Notes who asks for a liquidation and queues it. Anyone may ask; a closed
/// position is refused and stays as it is.
pub fn liquidate(
    position: &mut Position,
    position_address: Pubkey,
    liquidator: Pubkey,
    computation_offset: u64,
    _position_id: u64,
    current_price: u64,
    client_pubkey: [u8; 32],
    nonce: u128,
) -> (r: Result<QueuedComputation, ErrorCode>)
    ensures
        old(position).is_closed() ==> r matches Err(ErrorCode::InvalidMove),
        !old(position).is_closed() ==> {
            &&& *final(position) == (Position { liquidator, ..*old(position) })
            &&& r matches Ok(q)
            &&& queues(
                q,
                Circuit::Liquidate,
                computation_offset,
                valuation_arguments(
                    *old(position),
                    position_address,
                    current_price,
                    client_pubkey,
                    nonce,
                ),
                position_address,
            )
        },
        r is Err ==> *final(position) == *old(position),
{
    if position.closed() {
        return Err(ErrorCode::InvalidMove);
    }
    let args = build_valuation_arguments(
        position,
        position_address,
        current_price,
        client_pubkey,
        nonce,
    );
    position.liquidator = liquidator;
    Ok(queue_for(Circuit::Liquidate, computation_offset, args, position_address))
}

/// The record of a position that was liquidated at time `now`: size and
/// collateral are zeroed, as they are by closing.
pub open spec fn after_liquidation(position: Position, now: i64) -> Position {
    after_close(position, now)
}

/// Ends the position and makes the liquidation's encrypted outcome known.
/// Whether the position was under the threshold is for the caller to read
/// from the outcome.
pub fn liquidate_callback(
    position: &mut Position,
    output: ComputationOutputs<SharedEncryptedStruct<3>>,
    now: i64,
) -> (r: Result<PositionLiquidatedEvent, ErrorCode>)
    ensures
        match output {
            ComputationOutputs::Failure => r matches Err(ErrorCode::AbortedComputation),
            ComputationOutputs::Success(o) => if old(position).is_closed() {
                r matches Err(ErrorCode::InvalidMove)
            } else {
                &&& *final(position) == after_liquidation(*old(position), now)
                &&& final(position).is_closed()
                &&& r matches Ok(e)
                &&& e.position_id == old(position).position_id
                &&& e.owner == old(position).owner
                &&& e.liquidator == old(position).liquidator
                &&& e.is_liquidatable_encrypted == o.ciphertexts[0]
                &&& e.remaining_collateral_encrypted == o.ciphertexts[1]
                &&& e.penalty_encrypted == o.ciphertexts[2]
                &&& e.nonce == o.nonce
            },
        },
        r is Err ==> *final(position) == *old(position),
{
    let o = match output {
        ComputationOutputs::Success(o) => o,
        ComputationOutputs::Failure => {
            return Err(ErrorCode::AbortedComputation);
        },
    };
    if position.closed() {
        return Err(ErrorCode::InvalidMove);
    }
    position.size_usd_encrypted = [0u8; 32];
    position.collateral_usd_encrypted = [0u8; 32];
    position.update_time = now;
    Ok(
        PositionLiquidatedEvent {
            position_id: position.position_id,
            owner: position.owner,
            liquidator: position.liquidator,
            is_liquidatable_encrypted: o.ciphertexts[0],
            remaining_collateral_encrypted: o.ciphertexts[1],
            penalty_encrypted: o.ciphertexts[2],
            nonce: o.nonce,
        },
    )
}

/// Closing and liquidating both end a position, and nothing can be done
/// with a position that has ended: every step that takes an output into it
/// is refused.
pub proof fn lemma_closed_is_final(position: Position, now: i64)
    ensures
        after_close(position, now).is_closed(),
        after_liquidation(position, now).is_closed(),
        forall|caller: Pubkey| #[trigger]
            after_close(position, now).owner_refusal(caller) is Some,
        forall|caller: Pubkey| #[trigger]
            after_liquidation(position, now).owner_refusal(caller) is Some,
{
}

} // verus!
