//! What holds of operations made one after the other, and of the books as a
//! whole.
use crate::instructions::close_position::ClosePosition;
use crate::instructions::decrease_liquidity::DecreaseLiquidity;
use crate::instructions::increase_liquidity::IncreaseLiquidity;
use crate::instructions::open_position::OpenPosition;
use crate::states::address::Address;
use crate::states::pool::Pool;
use crate::states::position::Position;
use crate::states::tick_array::{slot_index, spec_apply_to_range, TickArray, TICKS_PER_ARRAY};
use vstd::prelude::*;

verus! {

/// The tick in `slot` has its net liquidity back, and has lost neither gross
/// liquidity nor its initialized mark.
pub open spec fn net_restored_at(before: TickArray, after: TickArray, slot: int) -> bool {
    &&& after.ticks[slot].initialized
    &&& after.ticks[slot].liquidity_net == before.ticks[slot].liquidity_net
    &&& after.ticks[slot].liquidity_gross >= before.ticks[slot].liquidity_gross
}

/// The gross liquidity of the tick in `slot` counts one deposit of
/// `liquidity` and its withdrawal.
pub open spec fn gross_counts_round_trip(
    before: TickArray,
    after: TickArray,
    slot: int,
    liquidity: u128,
) -> bool {
    after.ticks[slot].liquidity_gross == before.ticks[slot].liquidity_gross + 2 * liquidity
}

/// No tick of the array has changed but those in the slots `lower_slot` and
/// `uppar_slot`.
pub open spec fn others_untouched(
    before: TickArray,
    after: TickArray,
    lower_slot: int,
    uppar_slot: int,
) -> bool {
    forall|other: int|
        #![trigger after.ticks[other]]
        0 <= other < TICKS_PER_ARRAY && other != lower_slot && other != uppar_slot
            ==> after.ticks[other] == before.ticks[other]
}

/// Recording a change at both bounds of a range and then recording its
/// opposite gives both boundary ticks their net liquidity back and changes no
/// other tick.
pub proof fn lemma_round_trip_in_arrays(
    lower_array: TickArray,
    uppar_array: TickArray,
    lower_tick: i32,
    uppar_tick: i32,
    tick_spacing: i32,
    change: int,
)
    requires
        spec_apply_to_range(lower_array, uppar_array, lower_tick, uppar_tick, tick_spacing, change)
            is Some,
        ({
            let there = spec_apply_to_range(
                lower_array,
                uppar_array,
                lower_tick,
                uppar_tick,
                tick_spacing,
                change,
            ).unwrap();
            spec_apply_to_range(there.0, there.1, lower_tick, uppar_tick, tick_spacing, -change)
                is Some
        }),
    ensures
        ({
            let there = spec_apply_to_range(
                lower_array,
                uppar_array,
                lower_tick,
                uppar_tick,
                tick_spacing,
                change,
            ).unwrap();
            let back = spec_apply_to_range(
                there.0,
                there.1,
                lower_tick,
                uppar_tick,
                tick_spacing,
                -change,
            ).unwrap();
            let lower_slot = slot_index(lower_array.starting_tick, lower_tick, tick_spacing);
            let uppar_slot = slot_index(uppar_array.starting_tick, uppar_tick, tick_spacing);
            let one_array = there.0 == there.1;
            &&& lower_slot is Some
            &&& uppar_slot is Some
            &&& back.0.pool == lower_array.pool
            &&& back.0.starting_tick == lower_array.starting_tick
            &&& back.0.bump == lower_array.bump
            &&& back.1.pool == uppar_array.pool
            &&& back.1.starting_tick == uppar_array.starting_tick
            &&& back.1.bump == uppar_array.bump
            &&& net_restored_at(lower_array, back.0, lower_slot.unwrap())
            &&& net_restored_at(uppar_array, back.1, uppar_slot.unwrap())
            &&& others_untouched(
                lower_array,
                back.0,
                lower_slot.unwrap(),
                if one_array {
                    uppar_slot.unwrap()
                } else {
                    lower_slot.unwrap()
                },
            )
            &&& others_untouched(
                uppar_array,
                back.1,
                if one_array {
                    lower_slot.unwrap()
                } else {
                    uppar_slot.unwrap()
                },
                uppar_slot.unwrap(),
            )
        }),
{
}

/// The records that closing works on when it follows at once on `opened`.
pub open spec fn close_after(opened: OpenPosition) -> ClosePosition {
    ClosePosition {
        pool: opened.pool,
        lower_tick_array: opened.lower_tick_array,
        upper_tick_array: opened.uppar_tick_array,
        position: opened.position,
    }
}

/// Opening a new position and closing it at once, at the same price, undoes
/// the opening.
///
/// The record of the position is vacant again, the pool is what it was before
/// the opening, the amounts paid in are paid back, and the net liquidity of
/// both boundary ticks is what it was. The gross liquidity does not come
/// back: it has grown. No other tick has changed.
pub proof fn lemma_open_then_close_restores(
    open: OpenPosition,
    owner: Address,
    lower_tick: i32,
    uppar_tick: i32,
    liquidity_amount: u128,
    tick_array_lower_start_index: i32,
    tick_array_uppar_start_index: i32,
    bump: u8,
)
    requires
        open.position.is_vacant(),
        open.spec_new(
            owner,
            lower_tick,
            uppar_tick,
            liquidity_amount,
            tick_array_lower_start_index,
            tick_array_uppar_start_index,
            bump,
        ) is Ok,
        close_after(
            open.spec_new(
                owner,
                lower_tick,
                uppar_tick,
                liquidity_amount,
                tick_array_lower_start_index,
                tick_array_uppar_start_index,
                bump,
            )->Ok_0.0,
        ).spec_new(lower_tick, uppar_tick) is Ok,
    ensures
        ({
            let done = open.spec_new(
                owner,
                lower_tick,
                uppar_tick,
                liquidity_amount,
                tick_array_lower_start_index,
                tick_array_uppar_start_index,
                bump,
            )->Ok_0;
            let opened = done.0;
            let undone = close_after(opened).spec_new(lower_tick, uppar_tick)->Ok_0;
            let lower_slot = slot_index(
                opened.lower_tick_array.starting_tick,
                lower_tick,
                open.pool.tick_spacing,
            );
            let uppar_slot = slot_index(
                opened.uppar_tick_array.starting_tick,
                uppar_tick,
                open.pool.tick_spacing,
            );
            let one_array = opened.lower_tick_array == opened.uppar_tick_array;
            &&& opened.position.liquidity == liquidity_amount
            &&& undone.0.position == Position::vacant()
            &&& undone.0.position.liquidity == open.position.liquidity
            &&& undone.0.pool == open.pool
            &&& undone.1 == done.1
            &&& lower_slot is Some
            &&& uppar_slot is Some
            &&& net_restored_at(
                open.lower_tick_array,
                undone.0.lower_tick_array,
                lower_slot.unwrap(),
            )
            &&& net_restored_at(
                open.uppar_tick_array,
                undone.0.upper_tick_array,
                uppar_slot.unwrap(),
            )
            &&& others_untouched(
                open.lower_tick_array,
                undone.0.lower_tick_array,
                lower_slot.unwrap(),
                if one_array {
                    uppar_slot.unwrap()
                } else {
                    lower_slot.unwrap()
                },
            )
            &&& others_untouched(
                open.uppar_tick_array,
                undone.0.upper_tick_array,
                if one_array {
                    lower_slot.unwrap()
                } else {
                    uppar_slot.unwrap()
                },
                uppar_slot.unwrap(),
            )
        }),
{
    let spacing = open.pool.tick_spacing;
    let change = liquidity_amount as int;
    let lower_claimed = open.lower_tick_array.spec_claimed(
        open.pool_key,
        tick_array_lower_start_index,
    );
    let uppar_claimed = open.uppar_tick_array.spec_claimed(
        open.pool_key,
        tick_array_uppar_start_index,
    );
    let opened = open.spec_new(
        owner,
        lower_tick,
        uppar_tick,
        liquidity_amount,
        tick_array_lower_start_index,
        tick_array_uppar_start_index,
        bump,
    )->Ok_0.0;
    let undone = close_after(opened).spec_new(lower_tick, uppar_tick)->Ok_0.0;
    lemma_round_trip_in_arrays(
        lower_claimed,
        uppar_claimed,
        lower_tick,
        uppar_tick,
        spacing,
        change,
    );
}

/// A new position that was opened can be closed at once unless the gross
/// liquidity of a boundary tick cannot take the withdrawal, and the gross
/// liquidity of both boundary ticks then counts the deposit and the
/// withdrawal.
pub proof fn lemma_open_then_close_counts_gross(
    open: OpenPosition,
    owner: Address,
    lower_tick: i32,
    uppar_tick: i32,
    liquidity_amount: u128,
    tick_array_lower_start_index: i32,
    tick_array_uppar_start_index: i32,
    bump: u8,
)
    requires
        open.position.is_vacant(),
        open.spec_new(
            owner,
            lower_tick,
            uppar_tick,
            liquidity_amount,
            tick_array_lower_start_index,
            tick_array_uppar_start_index,
            bump,
        ) is Ok,
    ensures
        ({
            let opened = open.spec_new(
                owner,
                lower_tick,
                uppar_tick,
                liquidity_amount,
                tick_array_lower_start_index,
                tick_array_uppar_start_index,
                bump,
            )->Ok_0.0;
            let close = close_after(opened);
            let lower_slot = slot_index(
                opened.lower_tick_array.starting_tick,
                lower_tick,
                open.pool.tick_spacing,
            );
            let uppar_slot = slot_index(
                opened.uppar_tick_array.starting_tick,
                uppar_tick,
                open.pool.tick_spacing,
            );
            &&& lower_slot is Some
            &&& uppar_slot is Some
            &&& close.spec_new(lower_tick, uppar_tick) is Ok <==> {
                &&& open.lower_tick_array.ticks[lower_slot.unwrap()].liquidity_gross + 2
                    * liquidity_amount <= u128::MAX
                &&& open.uppar_tick_array.ticks[uppar_slot.unwrap()].liquidity_gross + 2
                    * liquidity_amount <= u128::MAX
            }
            &&& close.spec_new(lower_tick, uppar_tick) matches Ok(undone) ==> {
                &&& gross_counts_round_trip(
                    open.lower_tick_array,
                    undone.0.lower_tick_array,
                    lower_slot.unwrap(),
                    liquidity_amount,
                )
                &&& gross_counts_round_trip(
                    open.uppar_tick_array,
                    undone.0.upper_tick_array,
                    uppar_slot.unwrap(),
                    liquidity_amount,
                )
            }
        }),
{
}

/// The records that a withdrawal works on when it follows at once on
/// `increased`.
pub open spec fn decrease_after(increased: IncreaseLiquidity) -> DecreaseLiquidity {
    DecreaseLiquidity {
        payer: increased.payer,
        pool_key: increased.pool_key,
        pool: increased.pool,
        lower_tick_array: increased.lower_tick_array,
        uppar_tick_array: increased.uppar_tick_array,
        position: increased.position,
    }
}

/// Adding liquidity to a position and withdrawing the same amount at once, at
/// the same price, undoes the addition.
///
/// The position and the pool are what they were before the addition, the
/// amounts paid in are paid back, and the net liquidity of both boundary
/// ticks is what it was. The gross liquidity does not come back: it has
/// grown. No other tick has changed.
pub proof fn lemma_increase_then_decrease_restores(
    increase: IncreaseLiquidity,
    liquidity_amount: u128,
    lower_tick: i32,
    uppar_tick: i32,
)
    requires
        increase.spec_new(liquidity_amount, lower_tick, uppar_tick) is Ok,
        decrease_after(
            increase.spec_new(liquidity_amount, lower_tick, uppar_tick)->Ok_0.0,
        ).spec_new(liquidity_amount, lower_tick, uppar_tick) is Ok,
    ensures
        ({
            let done = increase.spec_new(liquidity_amount, lower_tick, uppar_tick)->Ok_0;
            let undone = decrease_after(done.0).spec_new(
                liquidity_amount,
                lower_tick,
                uppar_tick,
            )->Ok_0;
            let lower_slot = slot_index(
                increase.lower_tick_array.starting_tick,
                lower_tick,
                increase.pool.tick_spacing,
            );
            let uppar_slot = slot_index(
                increase.uppar_tick_array.starting_tick,
                uppar_tick,
                increase.pool.tick_spacing,
            );
            let one_array = done.0.lower_tick_array == done.0.uppar_tick_array;
            &&& done.0.position.liquidity == increase.position.liquidity + liquidity_amount
            &&& undone.0.position == increase.position
            &&& undone.0.pool == increase.pool
            &&& undone.1 == done.1
            &&& lower_slot is Some
            &&& uppar_slot is Some
            &&& net_restored_at(
                increase.lower_tick_array,
                undone.0.lower_tick_array,
                lower_slot.unwrap(),
            )
            &&& net_restored_at(
                increase.uppar_tick_array,
                undone.0.uppar_tick_array,
                uppar_slot.unwrap(),
            )
            &&& others_untouched(
                increase.lower_tick_array,
                undone.0.lower_tick_array,
                lower_slot.unwrap(),
                if one_array {
                    uppar_slot.unwrap()
                } else {
                    lower_slot.unwrap()
                },
            )
            &&& others_untouched(
                increase.uppar_tick_array,
                undone.0.uppar_tick_array,
                if one_array {
                    lower_slot.unwrap()
                } else {
                    uppar_slot.unwrap()
                },
                uppar_slot.unwrap(),
            )
        }),
{
    lemma_round_trip_in_arrays(
        increase.lower_tick_array,
        increase.uppar_tick_array,
        lower_tick,
        uppar_tick,
        increase.pool.tick_spacing,
        liquidity_amount as int,
    );
}

/// The books have moved in step by `change`: the position and the pool's
/// active liquidity have both grown by it, the net liquidity of the lower
/// tick has grown by it and that of the upper tick has shrunk by it, and
/// nothing else in the pool has changed.
pub open spec fn moved_in_step(
    change: int,
    lower_tick: i32,
    uppar_tick: i32,
    pool_before: Pool,
    pool_after: Pool,
    liquidity_before: u128,
    liquidity_after: u128,
    lower_before: TickArray,
    lower_after: TickArray,
    uppar_before: TickArray,
    uppar_after: TickArray,
) -> bool {
    let lower_slot = slot_index(lower_after.starting_tick, lower_tick, pool_before.tick_spacing);
    let uppar_slot = slot_index(uppar_after.starting_tick, uppar_tick, pool_before.tick_spacing);
    &&& liquidity_after == liquidity_before + change
    &&& pool_after.global_liquidity == pool_before.global_liquidity + change
    &&& pool_after == Pool { global_liquidity: pool_after.global_liquidity, ..pool_before }
    &&& lower_slot is Some
    &&& uppar_slot is Some
    &&& lower_after.ticks[lower_slot.unwrap()].liquidity_net
        == lower_before.ticks[lower_slot.unwrap()].liquidity_net + change
    &&& uppar_after.ticks[uppar_slot.unwrap()].liquidity_net
        == uppar_before.ticks[uppar_slot.unwrap()].liquidity_net - change
}

/// Opening a position moves the books in step by the liquidity deposited.
pub proof fn lemma_open_moves_in_step(
    open: OpenPosition,
    owner: Address,
    lower_tick: i32,
    uppar_tick: i32,
    liquidity_amount: u128,
    tick_array_lower_start_index: i32,
    tick_array_uppar_start_index: i32,
    bump: u8,
)
    requires
        open.spec_new(
            owner,
            lower_tick,
            uppar_tick,
            liquidity_amount,
            tick_array_lower_start_index,
            tick_array_uppar_start_index,
            bump,
        ) is Ok,
    ensures
        ({
            let opened = open.spec_new(
                owner,
                lower_tick,
                uppar_tick,
                liquidity_amount,
                tick_array_lower_start_index,
                tick_array_uppar_start_index,
                bump,
            )->Ok_0.0;
            moved_in_step(
                liquidity_amount as int,
                lower_tick,
                uppar_tick,
                open.pool,
                opened.pool,
                open.position.liquidity,
                opened.position.liquidity,
                open.lower_tick_array,
                opened.lower_tick_array,
                open.uppar_tick_array,
                opened.uppar_tick_array,
            )
        }),
{
}

/// Adding liquidity moves the books in step by the liquidity added.
pub proof fn lemma_increase_moves_in_step(
    increase: IncreaseLiquidity,
    liquidity_amount: u128,
    lower_tick: i32,
    uppar_tick: i32,
)
    requires
        increase.spec_new(liquidity_amount, lower_tick, uppar_tick) is Ok,
    ensures
        ({
            let increased = increase.spec_new(liquidity_amount, lower_tick, uppar_tick)->Ok_0.0;
            moved_in_step(
                liquidity_amount as int,
                lower_tick,
                uppar_tick,
                increase.pool,
                increased.pool,
                increase.position.liquidity,
                increased.position.liquidity,
                increase.lower_tick_array,
                increased.lower_tick_array,
                increase.uppar_tick_array,
                increased.uppar_tick_array,
            )
        }),
{
}

/// Withdrawing liquidity moves the books in step by the liquidity withdrawn,
/// counted as a loss.
pub proof fn lemma_decrease_moves_in_step(
    decrease: DecreaseLiquidity,
    liquidity_amount: u128,
    lower_tick: i32,
    uppar_tick: i32,
)
    requires
        decrease.spec_new(liquidity_amount, lower_tick, uppar_tick) is Ok,
    ensures
        ({
            let decreased = decrease.spec_new(liquidity_amount, lower_tick, uppar_tick)->Ok_0.0;
            moved_in_step(
                -(liquidity_amount as int),
                lower_tick,
                uppar_tick,
                decrease.pool,
                decreased.pool,
                decrease.position.liquidity,
                decreased.position.liquidity,
                decrease.lower_tick_array,
                decreased.lower_tick_array,
                decrease.uppar_tick_array,
                decreased.uppar_tick_array,
            )
        }),
{
}

/// Closing a position moves the books in step by all of its liquidity,
/// counted as a loss.
pub proof fn lemma_close_moves_in_step(close: ClosePosition, lower_tick: i32, uppar_tick: i32)
    requires
        close.spec_new(lower_tick, uppar_tick) is Ok,
    ensures
        ({
            let closed = close.spec_new(lower_tick, uppar_tick)->Ok_0.0;
            moved_in_step(
                -(close.position.liquidity as int),
                lower_tick,
                uppar_tick,
                close.pool,
                closed.pool,
                close.position.liquidity,
                closed.position.liquidity,
                close.lower_tick_array,
                closed.lower_tick_array,
                close.upper_tick_array,
                closed.upper_tick_array,
            )
        }),
{
}

} // verus!
