//! Epochs of the order-matching market and the checks on an order's price
//! and size.

use vstd::prelude::*;

verus! {

/// Why an order was refused.
#[derive(Clone, Copy, Debug, PartialEq, Eq, Structural)]
pub enum ErrorCode {
    /// The price is zero, off the tick grid or outside its bounds.
    InvalidPrice,
    /// The size is outside the market's bounds.
    InvalidOrderSize,
}

impl ErrorCode {
    /// The message that goes with the code.
    pub fn message(&self) -> (s: &'static str)
        ensures
            s == match *self {
                ErrorCode::InvalidPrice => "Invalid price",
                ErrorCode::InvalidOrderSize => "Invalid order size",
            },
    {
        match self {
            ErrorCode::InvalidPrice => "Invalid price",
            ErrorCode::InvalidOrderSize => "Invalid order size",
        }
    }
}

/// The epoch that a slot falls into: the whole epochs that have passed
/// since the first one started, and zero before that.
pub open spec fn epoch_of(current_slot: u64, epoch_start_slot: u64, epoch_duration_slots: u64)
    -> int {
    if current_slot < epoch_start_slot {
        0
    } else {
        (current_slot - epoch_start_slot) / (epoch_duration_slots as int)
    }
}

/// The epoch that `current_slot` falls into. Epochs must last at least one
/// slot once the first has started.
pub fn get_current_epoch_id(current_slot: u64, epoch_start_slot: u64, epoch_duration_slots: u64) -> (id:
    u64)
    requires
        current_slot >= epoch_start_slot ==> epoch_duration_slots > 0,
    ensures
        id == epoch_of(current_slot, epoch_start_slot, epoch_duration_slots),
{
    if current_slot < epoch_start_slot {
        return 0;
    }
    (current_slot - epoch_start_slot) / epoch_duration_slots
}

/// The slot at which an epoch starts. The slot must be a 64-bit number.
pub fn get_epoch_start_slot(epoch_id: u64, base_start_slot: u64, epoch_duration_slots: u64) -> (slot:
    u64)
    requires
        base_start_slot + epoch_id * epoch_duration_slots <= u64::MAX,
    ensures
        slot == base_start_slot + epoch_id * epoch_duration_slots,
{
    assert(epoch_id * epoch_duration_slots >= 0) by (nonlinear_arith);
    base_start_slot + epoch_id * epoch_duration_slots
}

/// The slot at which an epoch ends, which is where the next one starts. The
/// slot must be a 64-bit number.
pub fn get_epoch_end_slot(epoch_id: u64, base_start_slot: u64, epoch_duration_slots: u64) -> (slot:
    u64)
    requires
        base_start_slot + epoch_id * epoch_duration_slots + epoch_duration_slots <= u64::MAX,
    ensures
        slot == base_start_slot + (epoch_id + 1) * epoch_duration_slots,
{
    assert((epoch_id + 1) * epoch_duration_slots == epoch_id * epoch_duration_slots
        + epoch_duration_slots) by (nonlinear_arith);
    get_epoch_start_slot(epoch_id, base_start_slot, epoch_duration_slots) + epoch_duration_slots
}

/// A slot lies in the epoch that it is counted into: between that epoch's
/// start and its end.
pub proof fn lemma_slot_within_epoch(current_slot: u64, start_slot: u64, duration: u64)
    requires
        current_slot >= start_slot,
        duration > 0,
    ensures
        ({
            let id = epoch_of(current_slot, start_slot, duration);
            start_slot + id * duration <= current_slot < start_slot + (id + 1) * duration
        }),
{
    let d = (current_slot - start_slot) as int;
    vstd::arithmetic::div_mod::lemma_fundamental_div_mod(d, duration as int);
    let id = d / (duration as int);
    assert(id * duration == duration * id) by (nonlinear_arith);
    assert((id + 1) * duration == id * duration + duration) by (nonlinear_arith);
}

/// Whether a price is acceptable: above zero, a multiple of the tick size,
/// and within the bounds that are set.
pub open spec fn price_valid(
    price: u64,
    tick_size: u64,
    min_price: Option<u64>,
    max_price: Option<u64>,
) -> bool {
    &&& price > 0
    &&& price % tick_size == 0
    &&& min_price matches Some(min) ==> price >= min
    &&& max_price matches Some(max) ==> price <= max
}

/// Checks an order's price. The tick size of a market is not zero.
pub fn validate_price(price: u64, tick_size: u64, min_price: Option<u64>, max_price: Option<u64>) -> (r:
    Result<(), ErrorCode>)
    requires
        price > 0 ==> tick_size > 0,
    ensures
        r == if price_valid(price, tick_size, min_price, max_price) {
            Ok::<(), ErrorCode>(())
        } else {
            Err(ErrorCode::InvalidPrice)
        },
{
    if price == 0 {
        return Err(ErrorCode::InvalidPrice);
    }
    if price % tick_size != 0 {
        return Err(ErrorCode::InvalidPrice);
    }
    if let Some(min) = min_price {
        if price < min {
            return Err(ErrorCode::InvalidPrice);
        }
    }
    if let Some(max) = max_price {
        if price > max {
            return Err(ErrorCode::InvalidPrice);
        }
    }
    Ok(())
}

/// Checks that an order's size lies within the market's bounds.
pub fn validate_order_size(size: u64, min_order_size: u64, max_order_size: u64) -> (r: Result<
    (),
    ErrorCode,
>)
    ensures
        r == if min_order_size <= size <= max_order_size {
            Ok::<(), ErrorCode>(())
        } else {
            Err(ErrorCode::InvalidOrderSize)
        },
{
    if size < min_order_size {
        return Err(ErrorCode::InvalidOrderSize);
    }
    if size > max_order_size {
        return Err(ErrorCode::InvalidOrderSize);
    }
    Ok(())
}

} // verus!
