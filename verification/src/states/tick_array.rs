//! Per-tick liquidity bookkeeping, stored in arrays of a fixed number of
//! ticks.
use crate::states::address::Address;
use crate::utils::error::ErrorCode;
use vstd::arithmetic::div_mod::lemma_fundamental_div_mod_converse;
use vstd::array::{spec_array_fill_for_copy_type, spec_array_update};
use vstd::math::abs;
use vstd::prelude::*;

verus! {

/// Number of ticks that one tick array holds.
pub const TICKS_PER_ARRAY: usize = 30;

/// The first tick of the array that `tick` is filed under: the start of the
/// stretch of [`TICKS_PER_ARRAY`] spacings that covers the tick.
///
/// The tick is counted in units of the spacing, the units in blocks of
/// [`TICKS_PER_ARRAY`], both rounded down, and the block is scaled back.
pub open spec fn starting_tick_index(tick: int, tick_spacing: int) -> int {
    ((tick / tick_spacing) / (TICKS_PER_ARRAY as int)) * TICKS_PER_ARRAY * tick_spacing
}

/// The slot at which an array that starts at `starting_tick` keeps `tick`:
/// the distance between the two in units of the spacing, each rounded down,
/// reduced to the range of slots.
///
/// There is no slot when the spacing is zero, or when a quotient or the
/// distance does not fit the tick type.
pub open spec fn slot_index(starting_tick: i32, tick: i32, tick_spacing: i32) -> Option<int> {
    let units = tick as int / tick_spacing as int;
    let first = starting_tick as int / tick_spacing as int;
    if tick_spacing == 0 || units < i32::MIN || units > i32::MAX || first < i32::MIN || first
        > i32::MAX || units - first < i32::MIN || units - first > i32::MAX {
        None
    } else {
        Some((units - first) % (TICKS_PER_ARRAY as int))
    }
}

/// The liquidity recorded at one tick.
#[derive(Clone, Copy, Debug, PartialEq, Eq, Structural)]
pub struct TickInfo {
    /// Set when the tick is first touched, and never reset.
    pub initialized: bool,
    /// Sum of the magnitudes of every change made at this tick.
    pub liquidity_gross: u128,
    /// What is added to the pool's active liquidity when the price crosses
    /// this tick upward.
    pub liquidity_net: i128,
}

impl TickInfo {
    /// A tick that nothing has touched.
    pub open spec fn vacant() -> TickInfo {
        TickInfo { initialized: false, liquidity_gross: 0, liquidity_net: 0 }
    }

    /// Gross liquidity after a change of `liquidity_delta`.
    pub open spec fn gross_after(self, liquidity_delta: int) -> int {
        self.liquidity_gross + abs(liquidity_delta)
    }

    /// Net liquidity after a change of `liquidity_delta`: a lower bound gains
    /// the change, an upper bound loses it.
    pub open spec fn net_after(self, liquidity_delta: int, is_lower: bool) -> int {
        if is_lower {
            self.liquidity_net + liquidity_delta
        } else {
            self.liquidity_net - liquidity_delta
        }
    }

    /// The tick after a change of `liquidity_delta`, or `None` when the gross
    /// or the net liquidity would leave its type.
    pub open spec fn spec_update(self, liquidity_delta: int, is_lower: bool) -> Option<TickInfo> {
        if self.gross_after(liquidity_delta) <= u128::MAX && i128::MIN <= self.net_after(
            liquidity_delta,
            is_lower,
        ) <= i128::MAX {
            Some(
                TickInfo {
                    initialized: true,
                    liquidity_gross: self.gross_after(liquidity_delta) as u128,
                    liquidity_net: self.net_after(liquidity_delta, is_lower) as i128,
                },
            )
        } else {
            None
        }
    }

    /// Records a change of `liquidity_delta` at this tick, which bounds the
    /// changed position from below if `is_lower` and from above otherwise.
    ///
    /// The tick is marked as initialized, the magnitude of the change is
    /// added to the gross liquidity, and the change itself is added to the net
    /// liquidity of a lower bound or taken from that of an upper bound. Fails
    /// with `ArithmeticOverflow`, and changes nothing, when a result would
    /// leave its type.
    pub fn update_liquidity(&mut self, liquidity_delta: i128, is_lower: bool) -> (r: Result<
        (),
        ErrorCode,
    >)
        ensures
            match r {
                Ok(_) => old(self).spec_update(liquidity_delta as int, is_lower) == Some(
                    *final(self),
                ),
                Err(e) => e == ErrorCode::ArithmeticOverflow && old(self).spec_update(
                    liquidity_delta as int,
                    is_lower,
                ) is None && *final(self) == *old(self),
            },
            final(self).liquidity_gross >= old(self).liquidity_gross,
            old(self).initialized ==> final(self).initialized,
    {
        let magnitude: u128 = if liquidity_delta >= 0 {
            liquidity_delta as u128
        } else {
            (-(liquidity_delta + 1)) as u128 + 1
        };
        let gross = match self.liquidity_gross.checked_add(magnitude) {
            Some(gross) => gross,
            None => {
                return Err(ErrorCode::ArithmeticOverflow);
            },
        };
        let moved = if is_lower {
            self.liquidity_net.checked_add(liquidity_delta)
        } else {
            self.liquidity_net.checked_sub(liquidity_delta)
        };
        let net = match moved {
            Some(net) => net,
            None => {
                return Err(ErrorCode::ArithmeticOverflow);
            },
        };
        self.initialized = true;
        self.liquidity_gross = gross;
        self.liquidity_net = net;
        Ok(())
    }
}

impl Default for TickInfo {
    /// A tick that nothing has touched.
    fn default() -> (r: TickInfo)
        ensures
            r == TickInfo::vacant(),
    {
        TickInfo { initialized: false, liquidity_gross: 0, liquidity_net: 0 }
    }
}

/// The ticks of one stretch of a pool's tick space, [`TICKS_PER_ARRAY`] of
/// them, one for every multiple of the tick spacing.
#[derive(Clone, Copy, Debug, PartialEq, Eq)]
pub struct TickArray {
    pub pool: Address,
    pub starting_tick: i32,
    pub ticks: [TickInfo; TICKS_PER_ARRAY],
    pub bump: u8,
}

impl TickArray {
    /// An array that was never claimed: no pool, starting at zero, with no
    /// tick touched.
    pub open spec fn vacant() -> TickArray {
        TickArray {
            pool: Address::zero(),
            starting_tick: 0,
            ticks: spec_array_fill_for_copy_type::<TickInfo, TICKS_PER_ARRAY>(TickInfo::vacant()),
            bump: 0,
        }
    }

    /// No tick has lost gross liquidity or its initialized mark since
    /// `earlier`.
    pub open spec fn keeps_history_of(self, earlier: TickArray) -> bool {
        forall|slot: int|
            #![trigger self.ticks[slot]]
            0 <= slot < TICKS_PER_ARRAY ==> self.ticks[slot].liquidity_gross
                >= earlier.ticks[slot].liquidity_gross && (earlier.ticks[slot].initialized
                ==> self.ticks[slot].initialized)
    }

    /// The array with the tick in `slot` replaced by `info`.
    pub open spec fn with_tick(self, slot: int, info: TickInfo) -> TickArray {
        TickArray { ticks: spec_array_update(self.ticks, slot, info), ..self }
    }

    /// The array after a change of `liquidity_delta` at `tick`, or `None`
    /// when the tick has no slot or the change does not fit its tick.
    pub open spec fn spec_apply(
        self,
        tick: i32,
        tick_spacing: i32,
        liquidity_delta: int,
        is_lower: bool,
    ) -> Option<TickArray> {
        match slot_index(self.starting_tick, tick, tick_spacing) {
            Some(slot) => match self.ticks[slot].spec_update(liquidity_delta, is_lower) {
                Some(info) => Some(self.with_tick(slot, info)),
                None => None,
            },
            None => None,
        }
    }

    /// Tells whether two arrays are equal in every field and every tick.
    pub fn same_as(&self, other: &TickArray) -> (r: bool)
        ensures
            r == (*self == *other),
    {
        if !self.pool.matches(&other.pool) || self.starting_tick != other.starting_tick
            || self.bump != other.bump {
            return false;
        }
        let mut slot: usize = 0;
        while slot < TICKS_PER_ARRAY
            invariant
                slot <= TICKS_PER_ARRAY,
                forall|seen: int| 0 <= seen < slot ==> self.ticks[seen] == other.ticks[seen],
            decreases TICKS_PER_ARRAY - slot,
        {
            if self.ticks[slot] != other.ticks[slot] {
                return false;
            }
            slot += 1;
        }
        assert(self.ticks =~= other.ticks);
        true
    }

    /// The array was never claimed: it names no pool and starts at zero.
    pub open spec fn spec_is_unclaimed(&self) -> bool {
        self.starting_tick == 0 && self.pool == Address::zero()
    }

    /// Tells whether the array was never claimed.
    #[verifier::when_used_as_spec(spec_is_unclaimed)]
    pub fn is_unclaimed(&self) -> (r: bool)
        ensures
            r == self.spec_is_unclaimed(),
    {
        self.starting_tick == 0 && self.pool.is_zero()
    }

    /// The array as it is once `pool` has a claim to it: an unclaimed array
    /// takes the pool and the first tick, a claimed one stays as it is.
    pub open spec fn spec_claimed(self, pool: Address, starting_tick: i32) -> TickArray {
        if self.spec_is_unclaimed() {
            TickArray { pool, starting_tick, ..self }
        } else {
            self
        }
    }

    /// Claims the array for `pool`, starting at `starting_tick`, unless it was
    /// claimed before.
    pub fn claim(&mut self, pool: Address, starting_tick: i32)
        ensures
            *final(self) == old(self).spec_claimed(pool, starting_tick),
    {
        if self.is_unclaimed() {
            self.pool = pool;
            self.starting_tick = starting_tick;
        }
    }

    /// Computes the first tick of the array that `tick` is filed under, if
    /// there is one.
    ///
    /// There is none when the spacing is not positive, or when the stretch
    /// that covers the tick begins below the least tick.
    pub fn checked_starting_tick_index(tick: i32, tick_spacing: i32) -> (r: Option<i32>)
        ensures
            r == if tick_spacing > 0 && i32::MIN <= starting_tick_index(
                tick as int,
                tick_spacing as int,
            ) {
                Some(starting_tick_index(tick as int, tick_spacing as int) as i32)
            } else {
                None
            },
    {
        if tick_spacing <= 0 {
            return None;
        }
        proof {
            lemma_starting_tick_covers(tick as int, tick_spacing as int);
        }
        let spacing: i64 = tick_spacing as i64;
        let per_array: i64 = TICKS_PER_ARRAY as i64;
        assert(-0x8000_0000 <= tick as int / tick_spacing as int <= 0x7fff_ffff)
            by (nonlinear_arith)
            requires
                tick_spacing > 0,
                -0x8000_0000 <= tick <= 0x7fff_ffff,
        ;
        let units: i64 = (tick as i64).checked_div_euclid(spacing).expect("spacing is zero");
        let block: i64 = units.checked_div_euclid(per_array).expect("ticks per array is zero");
        let first: i64 = block * per_array;
        assert(first * spacing == starting_tick_index(tick as int, tick_spacing as int))
            by (nonlinear_arith)
            requires
                first == block * 30,
                block == (tick as int / tick_spacing as int) / 30,
                spacing == tick_spacing,
        ;
        let start: i64 = first * spacing;
        if start < -2_147_483_648 {
            None
        } else {
            Some(start as i32)
        }
    }

    /// Computes the first tick of the array that `tick` is filed under.
    ///
    /// The spacing must be positive, and the stretch that covers the tick
    /// must not begin below the least tick.
    pub fn get_starting_tick_index(tick: i32, tick_spacing: i32) -> (r: i32)
        requires
            tick_spacing > 0,
            i32::MIN <= starting_tick_index(tick as int, tick_spacing as int),
        ensures
            r == starting_tick_index(tick as int, tick_spacing as int),
            r <= tick < r + TICKS_PER_ARRAY * tick_spacing,
            r as int % (TICKS_PER_ARRAY * tick_spacing) == 0,
    {
        proof {
            lemma_starting_tick_covers(tick as int, tick_spacing as int);
        }
        Self::checked_starting_tick_index(tick, tick_spacing).expect(
            "first tick leaves the tick type",
        )
    }

    /// Finds the slot at which this array keeps `tick`.
    ///
    /// Fails with `ArithmeticOverflow` when the spacing is zero, or when a
    /// quotient or the distance between the two ticks leaves the tick type.
    pub fn slot_for(&self, tick: i32, tick_spacing: i32) -> (r: Result<usize, ErrorCode>)
        ensures
            match r {
                Ok(slot) => slot_index(self.starting_tick, tick, tick_spacing) == Some(slot as int)
                    && slot < TICKS_PER_ARRAY,
                Err(e) => e == ErrorCode::ArithmeticOverflow && slot_index(
                    self.starting_tick,
                    tick,
                    tick_spacing,
                ) is None,
            },
    {
        let units = match tick.checked_div_euclid(tick_spacing) {
            Some(units) => units,
            None => {
                return Err(ErrorCode::ArithmeticOverflow);
            },
        };
        let first = match self.starting_tick.checked_div_euclid(tick_spacing) {
            Some(first) => first,
            None => {
                return Err(ErrorCode::ArithmeticOverflow);
            },
        };
        let distance = match units.checked_sub(first) {
            Some(distance) => distance,
            None => {
                return Err(ErrorCode::ArithmeticOverflow);
            },
        };
        match distance.checked_rem_euclid(TICKS_PER_ARRAY as i32) {
            Some(slot) => Ok(slot as usize),
            None => Err(ErrorCode::ArithmeticOverflow),
        }
    }

    /// Hands out the record of `tick` for reading and writing.
    ///
    /// What the caller writes through the reference is the only change made to
    /// the array. Fails as [`TickArray::slot_for`] does, and then changes
    /// nothing.
    pub fn get_tick_info_mutable(&mut self, tick: i32, tick_spacing: i32) -> (r: Result<
        &mut TickInfo,
        ErrorCode,
    >)
        ensures
            match r {
                Ok(info) => slot_index(old(self).starting_tick, tick, tick_spacing) matches Some(
                    slot,
                ) && *info == old(self).ticks[slot] && *final(self) == old(self).with_tick(
                    slot,
                    *final(info),
                ),
                Err(e) => e == ErrorCode::ArithmeticOverflow && slot_index(
                    old(self).starting_tick,
                    tick,
                    tick_spacing,
                ) is None && *final(self) == *old(self),
            },
    {
        match self.slot_for(tick, tick_spacing) {
            Ok(slot) => Ok(&mut self.ticks[slot]),
            Err(e) => Err(e),
        }
    }

    /// Records a change of `liquidity_delta` at `tick`, which bounds the
    /// changed position from below if `is_lower` and from above otherwise.
    ///
    /// Fails with `ArithmeticOverflow`, and changes nothing, when the tick has
    /// no slot or the change does not fit its tick.
    pub fn apply_liquidity_delta(
        &mut self,
        tick: i32,
        tick_spacing: i32,
        liquidity_delta: i128,
        is_lower: bool,
    ) -> (r: Result<(), ErrorCode>)
        ensures
            match r {
                Ok(_) => old(self).spec_apply(tick, tick_spacing, liquidity_delta as int, is_lower)
                    == Some(*final(self)),
                Err(e) => e == ErrorCode::ArithmeticOverflow && old(self).spec_apply(
                    tick,
                    tick_spacing,
                    liquidity_delta as int,
                    is_lower,
                ) is None && *final(self) == *old(self),
            },
            final(self).keeps_history_of(*old(self)),
    {
        let slot = match self.slot_for(tick, tick_spacing) {
            Ok(slot) => slot,
            Err(e) => {
                return Err(e);
            },
        };
        let mut info = self.ticks[slot];
        match info.update_liquidity(liquidity_delta, is_lower) {
            Ok(_) => {
                self.ticks[slot] = info;
                Ok(())
            },
            Err(e) => Err(e),
        }
    }
}

impl Default for TickArray {
    /// An array that was never claimed.
    fn default() -> (r: TickArray)
        ensures
            r == TickArray::vacant(),
    {
        let r = TickArray {
            pool: Address::default(),
            starting_tick: 0,
            ticks: [TickInfo::default(); TICKS_PER_ARRAY],
            bump: 0,
        };
        assert(r.ticks =~= TickArray::vacant().ticks);
        r
    }
}

/// The two arrays after a change of `liquidity_delta` to a position between
/// `lower_tick` and `uppar_tick`: the change is recorded at the lower tick as
/// a lower bound and at the upper tick as an upper bound. `None` when either
/// record cannot be made.
///
/// Where one array keeps both ticks it is handed in twice. Two arrays that
/// are equal, and keep the two ticks in different slots, are therefore taken
/// for one: both records are made in it, and it is handed back twice.
pub open spec fn spec_apply_to_range(
    lower_array: TickArray,
    uppar_array: TickArray,
    lower_tick: i32,
    uppar_tick: i32,
    tick_spacing: i32,
    liquidity_delta: int,
) -> Option<(TickArray, TickArray)> {
    let lower = lower_array.spec_apply(lower_tick, tick_spacing, liquidity_delta, true);
    let one_array = lower_array == uppar_array && slot_index(
        lower_array.starting_tick,
        lower_tick,
        tick_spacing,
    ) != slot_index(uppar_array.starting_tick, uppar_tick, tick_spacing);
    if lower is None {
        None
    } else if one_array {
        match lower.unwrap().spec_apply(uppar_tick, tick_spacing, liquidity_delta, false) {
            Some(both) => Some((both, both)),
            None => None,
        }
    } else {
        match uppar_array.spec_apply(uppar_tick, tick_spacing, liquidity_delta, false) {
            Some(uppar) => Some((lower.unwrap(), uppar)),
            None => None,
        }
    }
}

/// Records a change of `liquidity_delta` to a position between `lower_tick`
/// and `uppar_tick` at both of its bounds.
///
/// Two arrays that are equal, and keep the two ticks in different slots, are
/// taken for one array that keeps both ticks. Fails with
/// `ArithmeticOverflow`, and changes neither array, when either record cannot
/// be made.
pub fn apply_to_range(
    lower_array: &mut TickArray,
    uppar_array: &mut TickArray,
    lower_tick: i32,
    uppar_tick: i32,
    tick_spacing: i32,
    liquidity_delta: i128,
) -> (r: Result<(), ErrorCode>)
    ensures
        match r {
            Ok(_) => spec_apply_to_range(
                *old(lower_array),
                *old(uppar_array),
                lower_tick,
                uppar_tick,
                tick_spacing,
                liquidity_delta as int,
            ) == Some((*final(lower_array), *final(uppar_array))),
            Err(e) => e == ErrorCode::ArithmeticOverflow && spec_apply_to_range(
                *old(lower_array),
                *old(uppar_array),
                lower_tick,
                uppar_tick,
                tick_spacing,
                liquidity_delta as int,
            ) is None && *final(lower_array) == *old(lower_array) && *final(uppar_array) == *old(
                uppar_array,
            ),
        },
        final(lower_array).keeps_history_of(*old(lower_array)),
        final(uppar_array).keeps_history_of(*old(uppar_array)),
{
    let lower_slot = lower_array.slot_for(lower_tick, tick_spacing)?;
    let uppar_slot = uppar_array.slot_for(uppar_tick, tick_spacing)?;
    let one_array = lower_slot != uppar_slot && lower_array.same_as(uppar_array);
    let mut lower = *lower_array;
    lower.apply_liquidity_delta(lower_tick, tick_spacing, liquidity_delta, true)?;
    let mut uppar = if one_array {
        lower
    } else {
        *uppar_array
    };
    uppar.apply_liquidity_delta(uppar_tick, tick_spacing, liquidity_delta, false)?;
    proof {
        if one_array {
            lemma_history_is_kept_on(*old(lower_array), lower, uppar);
        }
    }
    *lower_array = if one_array {
        uppar
    } else {
        lower
    };
    *uppar_array = uppar;
    Ok(())
}

/// An array that keeps the history of another keeps the history of every
/// array whose history that one keeps.
pub proof fn lemma_history_is_kept_on(first: TickArray, second: TickArray, third: TickArray)
    requires
        second.keeps_history_of(first),
        third.keeps_history_of(second),
    ensures
        third.keeps_history_of(first),
{
    assert forall|slot: int| 0 <= slot < TICKS_PER_ARRAY implies third.ticks[slot].liquidity_gross
        >= first.ticks[slot].liquidity_gross && (first.ticks[slot].initialized
        ==> third.ticks[slot].initialized) by {
        assert(second.ticks[slot].liquidity_gross >= first.ticks[slot].liquidity_gross);
    }
}

/// The first tick that a tick is filed under begins the stretch that covers
/// the tick, and is a multiple of the length of a stretch.
pub proof fn lemma_starting_tick_covers(tick: int, tick_spacing: int)
    requires
        tick_spacing > 0,
    ensures
        starting_tick_index(tick, tick_spacing) <= tick < starting_tick_index(tick, tick_spacing)
            + TICKS_PER_ARRAY * tick_spacing,
        starting_tick_index(tick, tick_spacing) % (TICKS_PER_ARRAY * tick_spacing) == 0,
        starting_tick_index(tick, tick_spacing) % tick_spacing == 0,
{
    let units = tick / tick_spacing;
    let block = units / 30;
    let start = block * 30 * tick_spacing;
    assert(units * tick_spacing <= tick < units * tick_spacing + tick_spacing)
        by (nonlinear_arith)
        requires
            tick_spacing > 0,
            units == tick / tick_spacing,
    ;
    assert(start <= units * tick_spacing && units * tick_spacing + tick_spacing <= start + 30
        * tick_spacing) by (nonlinear_arith)
        requires
            tick_spacing > 0,
            block * 30 <= units < block * 30 + 30,
            start == block * 30 * tick_spacing,
    ;
    assert(start == block * (30 * tick_spacing) + 0 && start == (block * 30) * tick_spacing + 0
        && 30 * tick_spacing > 0) by (nonlinear_arith)
        requires
            tick_spacing > 0,
            start == block * 30 * tick_spacing,
    ;
    lemma_fundamental_div_mod_converse(start, 30 * tick_spacing, block, 0);
    lemma_fundamental_div_mod_converse(start, tick_spacing, block * 30, 0);
}

/// Every tick of one stretch of `TICKS_PER_ARRAY` spacings is filed under
/// the first tick of that stretch, on both sides of zero.
pub proof fn lemma_starting_tick_of_stretch(block: int, offset: int, tick_spacing: int)
    requires
        tick_spacing > 0,
        0 <= offset < TICKS_PER_ARRAY * tick_spacing,
    ensures
        starting_tick_index(block * TICKS_PER_ARRAY * tick_spacing + offset, tick_spacing) == block
            * TICKS_PER_ARRAY * tick_spacing,
{
    let tick = block * 30 * tick_spacing + offset;
    let inner = offset / tick_spacing;
    assert(0 <= inner < 30 && offset == inner * tick_spacing + offset % tick_spacing && 0 <= offset
        % tick_spacing < tick_spacing) by (nonlinear_arith)
        requires
            tick_spacing > 0,
            0 <= offset < 30 * tick_spacing,
            inner == offset / tick_spacing,
    ;
    assert(tick == (block * 30 + inner) * tick_spacing + offset % tick_spacing)
        by (nonlinear_arith)
        requires
            tick == block * 30 * tick_spacing + offset,
            offset == inner * tick_spacing + offset % tick_spacing,
    ;
    lemma_fundamental_div_mod_converse(
        tick,
        tick_spacing,
        block * 30 + inner,
        offset % tick_spacing,
    );
    lemma_fundamental_div_mod_converse(block * 30 + inner, 30, block, inner);
}

/// In the array that it is filed under, a tick has the slot of its distance
/// from the first tick, counted in whole spacings. Two multiples of the
/// spacing in one stretch therefore have different slots.
pub proof fn lemma_slot_in_own_array(tick: i32, tick_spacing: i32)
    requires
        tick_spacing > 0,
        i32::MIN <= starting_tick_index(tick as int, tick_spacing as int),
    ensures
        ({
            let start = starting_tick_index(tick as int, tick_spacing as int);
            &&& 0 <= (tick - start) / (tick_spacing as int) < TICKS_PER_ARRAY
            &&& slot_index(start as i32, tick, tick_spacing) == Some(
                (tick - start) / (tick_spacing as int),
            )
        }),
{
    let d = tick_spacing as int;
    let start = starting_tick_index(tick as int, d);
    lemma_starting_tick_covers(tick as int, d);
    let units = tick as int / d;
    let first = start / d;
    let rest = tick as int % d;
    assert(tick == units * d + rest && start == first * d && 0 <= rest < d) by (nonlinear_arith)
        requires
            d > 0,
            units == tick as int / d,
            rest == tick as int % d,
            first == start / d,
            start % d == 0,
    ;
    assert(tick - start == (units - first) * d + rest && 0 <= units - first < 30)
        by (nonlinear_arith)
        requires
            d > 0,
            tick == units * d + rest,
            start == first * d,
            0 <= rest < d,
            0 <= tick - start < 30 * d,
    ;
    lemma_fundamental_div_mod_converse(tick - start, d, units - first, rest);
    assert(-0x8000_0000 <= first <= 0x7fff_ffff && -0x8000_0000 <= units <= 0x7fff_ffff)
        by (nonlinear_arith)
        requires
            d > 0,
            tick == units * d + rest,
            start == first * d,
            0 <= rest < d,
            -0x8000_0000 <= start <= tick <= 0x7fff_ffff,
    ;
}

/// An array keeps the tick that lies `k` spacings above its first tick in
/// slot `k` modulo `TICKS_PER_ARRAY`.
pub proof fn lemma_slot_of_kth_tick(starting_tick: i32, tick_spacing: i32, k: int)
    requires
        tick_spacing > 0,
        starting_tick as int % tick_spacing as int == 0,
        i32::MIN <= k <= i32::MAX,
        i32::MIN <= starting_tick + k * tick_spacing <= i32::MAX,
    ensures
        slot_index(starting_tick, (starting_tick + k * tick_spacing) as i32, tick_spacing) == Some(
            k % (TICKS_PER_ARRAY as int),
        ),
{
    let d = tick_spacing as int;
    let s = starting_tick as int;
    let m = s / d;
    assert(s == m * d + 0 && s + k * d == (m + k) * d + 0) by (nonlinear_arith)
        requires
            d > 0,
            m == s / d,
            s % d == 0,
    ;
    lemma_fundamental_div_mod_converse(s + k * d, d, m + k, 0);
    assert(-0x8000_0000 <= m <= 0x7fff_ffff && -0x8000_0000 <= m + k <= 0x7fff_ffff)
        by (nonlinear_arith)
        requires
            d > 0,
            s == m * d,
            -0x8000_0000 <= s <= 0x7fff_ffff,
            -0x8000_0000 <= s + k * d <= 0x7fff_ffff,
    ;
}

/// Within the stretch of `TICKS_PER_ARRAY` spacings that begins at its first
/// tick, an array keeps every multiple of the spacing in a slot of its own.
pub proof fn lemma_slots_of_a_stretch_are_distinct(
    starting_tick: i32,
    tick_spacing: i32,
    k: int,
    l: int,
)
    requires
        tick_spacing > 0,
        starting_tick as int % tick_spacing as int == 0,
        0 <= k < TICKS_PER_ARRAY,
        0 <= l < TICKS_PER_ARRAY,
        k != l,
        starting_tick + k * tick_spacing <= i32::MAX,
        starting_tick + l * tick_spacing <= i32::MAX,
    ensures
        slot_index(starting_tick, (starting_tick + k * tick_spacing) as i32, tick_spacing) == Some(
            k,
        ),
        slot_index(starting_tick, (starting_tick + l * tick_spacing) as i32, tick_spacing) == Some(
            l,
        ),
        slot_index(starting_tick, (starting_tick + k * tick_spacing) as i32, tick_spacing)
            != slot_index(starting_tick, (starting_tick + l * tick_spacing) as i32, tick_spacing),
{
    assert(0 <= k * tick_spacing && 0 <= l * tick_spacing) by (nonlinear_arith)
        requires
            0 <= k,
            0 <= l,
            tick_spacing > 0,
    ;
    lemma_slot_of_kth_tick(starting_tick, tick_spacing, k);
    lemma_slot_of_kth_tick(starting_tick, tick_spacing, l);
}

} // verus!
