//! The canonical battery state: the one normalized snapshot of the pack that
//! the gateway shares, and the discipline by which it is updated. An update
//! is merged whole, and the state is then valid, or it is refused: then no
//! value is written and the state is not valid until an update is merged.

use vstd::prelude::*;
use crate::blocks::{lemma_seq_max_is_greatest, lemma_seq_min_is_least, min_max, seq_max, seq_min};
use crate::buffer::{cell_values, cells_as_slice};
use crate::diag::{CycleReadings, CycleView};
use crate::rapid::RapidGroup;

verus! {

/// Largest pack current, in milliamperes either way, that the state holds.
pub const CURRENT_LIMIT_MA: i32 = 3_000_000;

/// Why an update was refused. A refused update writes no value and leaves
/// the state not valid.
#[derive(Clone, Copy, Debug, PartialEq, Eq, Structural)]
pub enum StateError {
    /// The cycle lacks a block, the pack voltage, or is inconsistent.
    IncompleteCycle,
    /// A field holds a value outside its range.
    OutOfRange,
}

/// Limits that the installation sets.
#[derive(Clone, Copy, Debug, PartialEq, Eq, Structural)]
pub struct Limits {
    /// Highest charge current to ask for, in tenths of an ampere.
    pub max_charge_da: u16,
    /// Discharge current to allow, in tenths of an ampere.
    pub max_discharge_da: u16,
    /// State of charge, in percent, at and below which the pack is not
    /// discharged.
    pub dod_min_percent: u8,
    /// State of charge, in percent, at and above which the pack is not
    /// charged.
    pub dod_max_percent: u8,
}

impl Limits {
    /// The depth-of-discharge window is ordered and within 0 to 100 percent.
    pub open spec fn window_ok(self) -> bool {
        self.dod_min_percent <= self.dod_max_percent <= 100
    }

    /// The charge limit at a state of charge: none at or above the top of
    /// the window, else the smaller of what the battery asks for and what the
    /// installation allows.
    pub open spec fn charge_limit_at(self, soc_percent: u8, asked_da: u16) -> u16 {
        if soc_percent >= self.dod_max_percent {
            0
        } else if asked_da < self.max_charge_da {
            asked_da
        } else {
            self.max_charge_da
        }
    }

    /// The discharge limit at a state of charge: none at or below the bottom
    /// of the window, else what the installation allows.
    pub open spec fn discharge_limit_at(self, soc_percent: u8) -> u16 {
        if soc_percent <= self.dod_min_percent {
            0
        } else {
            self.max_discharge_da
        }
    }

    /// Whether the depth-of-discharge window is ordered and within range.
    pub fn is_window_ok(&self) -> (ok: bool)
        ensures
            ok == self.window_ok(),
    {
        self.dod_min_percent <= self.dod_max_percent && self.dod_max_percent <= 100
    }
}

/// What a pack that reports itself through periodic frames alone gives to
/// merge: voltage in tenths of a volt, current in tenths of an ampere,
/// remaining energy in tenths of a kilowatt-hour, charge in percent.
#[derive(Clone, Copy, Debug, PartialEq, Eq, Structural)]
pub struct PackReadings {
    pub pack_volts_dv: u16,
    pub current_da: i32,
    pub kwh_remaining_dkwh: u16,
    pub soc_percent: u16,
}

/// Whether pack readings can be merged: each fits the unit in which the
/// state holds it.
pub open spec fn pack_in_range(pack: PackReadings) -> bool {
    &&& pack.pack_volts_dv <= 6553
    &&& -30000 <= pack.current_da <= 30000
    &&& pack.kwh_remaining_dkwh <= 6553
    &&& pack.soc_percent <= 100
}

/// The battery state as a value.
pub struct StateView {
    /// Pack voltage in hundredths of a volt.
    pub pack_voltage_cv: u16,
    /// Pack current in milliamperes.
    pub current_ma: i32,
    /// State of charge in whole percent.
    pub soc_percent: u8,
    /// Lowest cell voltage in millivolts.
    pub cell_min_mv: u16,
    /// Highest cell voltage in millivolts.
    pub cell_max_mv: u16,
    /// Lowest cell temperature in degrees Celsius.
    pub temp_min_c: i8,
    /// Highest cell temperature in degrees Celsius.
    pub temp_max_c: i8,
    /// Pack temperature in tenths of a degree Celsius.
    pub pack_temp_dc: i16,
    /// Number of cells that are balancing.
    pub balancing_cells: u8,
    /// Remaining energy in hundredths of a kilowatt-hour.
    pub kwh_remaining_x100: u16,
    /// Charge current limit in tenths of an ampere.
    pub charge_limit_da: u16,
    /// Discharge current limit in tenths of an ampere.
    pub discharge_limit_da: u16,
    /// Time of the last update, in milliseconds.
    pub last_update_ms: u64,
    /// A complete update was merged at least once.
    pub updated: bool,
    /// The last update was merged whole; cleared by an update that was
    /// refused.
    pub valid: bool,
}

impl StateView {
    /// The state before any update.
    pub open spec fn initial() -> StateView {
        StateView {
            pack_voltage_cv: 0,
            current_ma: 0,
            soc_percent: 0,
            cell_min_mv: 0,
            cell_max_mv: 0,
            temp_min_c: 0,
            temp_max_c: 0,
            pack_temp_dc: 0,
            balancing_cells: 0,
            kwh_remaining_x100: 0,
            charge_limit_da: 0,
            discharge_limit_da: 0,
            last_update_ms: 0,
            updated: false,
            valid: false,
        }
    }

    /// The fields are in range and consistent with each other; a valid state
    /// holds a complete update.
    pub open spec fn wf(self) -> bool {
        &&& self.soc_percent <= 100
        &&& -CURRENT_LIMIT_MA <= self.current_ma <= CURRENT_LIMIT_MA
        &&& self.cell_min_mv <= self.cell_max_mv
        &&& self.temp_min_c <= self.temp_max_c
        &&& self.balancing_cells <= 96
        &&& self.valid ==> self.updated
    }

    /// The state after an update was refused: no value is written and the
    /// state is not valid.
    pub open spec fn refused(self) -> StateView {
        StateView { valid: false, ..self }
    }

    /// The later of the state's time and `now`.
    pub open spec fn stamped(self, now: u64) -> u64 {
        if now > self.last_update_ms {
            now
        } else {
            self.last_update_ms
        }
    }

    /// The state after a rapid group was merged at `now`.
    pub open spec fn with_rapid(self, group: RapidGroup, limits: Limits, now: u64) -> StateView {
        StateView {
            current_ma: group.current_ma,
            soc_percent: group.soc_percent,
            pack_temp_dc: group.pack_temp_dc,
            kwh_remaining_x100: group.kwh_remaining_x100,
            charge_limit_da: limits.charge_limit_at(group.soc_percent, group.charge_limit_da),
            discharge_limit_da: limits.discharge_limit_at(group.soc_percent),
            last_update_ms: self.stamped(now),
            updated: true,
            valid: true,
            ..self
        }
    }

    /// The state after pack readings were merged at `now`.
    pub open spec fn with_pack(self, pack: PackReadings, now: u64) -> StateView {
        StateView {
            pack_voltage_cv: (pack.pack_volts_dv * 10) as u16,
            current_ma: (pack.current_da * 100) as i32,
            kwh_remaining_x100: (pack.kwh_remaining_dkwh * 10) as u16,
            soc_percent: pack.soc_percent as u8,
            last_update_ms: self.stamped(now),
            updated: true,
            valid: true,
            ..self
        }
    }

    /// The state after a complete read cycle was merged at `now`.
    pub open spec fn with_cycle(self, cycle: CycleView, now: u64) -> StateView {
        StateView {
            pack_voltage_cv: cycle.pack_voltage_cv.unwrap(),
            cell_min_mv: seq_min(cycle.cells),
            cell_max_mv: seq_max(cycle.cells),
            temp_min_c: cycle.temperatures.unwrap().min_c,
            temp_max_c: cycle.temperatures.unwrap().max_c,
            balancing_cells: cycle.balancing_cells.unwrap(),
            last_update_ms: self.stamped(now),
            updated: true,
            valid: true,
            ..self
        }
    }
}

/// Whether a rapid group can be merged: its fields are in range.
pub open spec fn group_in_range(group: RapidGroup) -> bool {
    &&& group.soc_percent <= 100
    &&& -CURRENT_LIMIT_MA <= group.current_ma <= CURRENT_LIMIT_MA
}

/// Whether a read cycle can be merged: every block was read, the pack
/// voltage is known and the values are consistent.
pub open spec fn cycle_mergeable(cycle: CycleView) -> bool {
    &&& cycle.wf()
    &&& cycle.complete()
    &&& cycle.pack_voltage_cv.is_some()
}

/// The canonical battery state.
#[derive(Clone, Copy, Debug, PartialEq, Eq)]
pub struct CanonicalBatteryState {
    pack_voltage_cv: u16,
    current_ma: i32,
    soc_percent: u8,
    cell_min_mv: u16,
    cell_max_mv: u16,
    temp_min_c: i8,
    temp_max_c: i8,
    pack_temp_dc: i16,
    balancing_cells: u8,
    kwh_remaining_x100: u16,
    charge_limit_da: u16,
    discharge_limit_da: u16,
    last_update_ms: u64,
    updated: bool,
    valid: bool,
}

impl View for CanonicalBatteryState {
    type V = StateView;

    closed spec fn view(&self) -> StateView {
        StateView {
            pack_voltage_cv: self.pack_voltage_cv,
            current_ma: self.current_ma,
            soc_percent: self.soc_percent,
            cell_min_mv: self.cell_min_mv,
            cell_max_mv: self.cell_max_mv,
            temp_min_c: self.temp_min_c,
            temp_max_c: self.temp_max_c,
            pack_temp_dc: self.pack_temp_dc,
            balancing_cells: self.balancing_cells,
            kwh_remaining_x100: self.kwh_remaining_x100,
            charge_limit_da: self.charge_limit_da,
            discharge_limit_da: self.discharge_limit_da,
            last_update_ms: self.last_update_ms,
            updated: self.updated,
            valid: self.valid,
        }
    }
}

impl CanonicalBatteryState {
    /// Every state that exists is well formed.
    #[verifier::type_invariant]
    closed spec fn consistent(self) -> bool {
        self@.wf()
    }

    /// The state before any update: every field zero, not valid.
    pub fn new() -> (state: CanonicalBatteryState)
        ensures
            state@ == StateView::initial(),
            state@.wf(),
    {
        CanonicalBatteryState {
            pack_voltage_cv: 0,
            current_ma: 0,
            soc_percent: 0,
            cell_min_mv: 0,
            cell_max_mv: 0,
            temp_min_c: 0,
            temp_max_c: 0,
            pack_temp_dc: 0,
            balancing_cells: 0,
            kwh_remaining_x100: 0,
            charge_limit_da: 0,
            discharge_limit_da: 0,
            last_update_ms: 0,
            updated: false,
            valid: false,
        }
    }

    /// Clears `valid` and writes nothing else: what a refused update does.
    fn refuse(&mut self)
        ensures
            final(self)@ == old(self)@.refused(),
            final(self)@.wf(),
    {
        proof {
            use_type_invariant(&*self);
        }
        *self = CanonicalBatteryState { valid: false, ..*self };
    }

    /// The later of the state's time and `now`.
    fn stamp(&self, now: u64) -> (stamp: u64)
        ensures
            stamp == self@.stamped(now),
    {
        if now > self.last_update_ms {
            now
        } else {
            self.last_update_ms
        }
    }

    /// Merges a complete rapid group at time `now`: the state is then valid.
    /// A group with a field out of range is refused: no value is written and
    /// the state is not valid.
    pub fn commit_rapid(&mut self, group: &RapidGroup, limits: &Limits, now: u64) -> (done: Result<
        (),
        StateError,
    >)
        ensures
            final(self)@.wf(),
            final(self)@.last_update_ms >= old(self)@.last_update_ms,
            group_in_range(*group) ==> done.is_ok() && final(self)@ == old(self)@.with_rapid(
                *group,
                *limits,
                now,
            ),
            !group_in_range(*group) ==> done == Err::<(), StateError>(StateError::OutOfRange)
                && final(self)@ == old(self)@.refused(),
    {
        proof {
            use_type_invariant(&*self);
        }
        if group.soc_percent > 100 || group.current_ma < -CURRENT_LIMIT_MA || group.current_ma
            > CURRENT_LIMIT_MA {
            self.refuse();
            return Err(StateError::OutOfRange);
        }
        let charge: u16 = if group.soc_percent >= limits.dod_max_percent {
            0
        } else if group.charge_limit_da < limits.max_charge_da {
            group.charge_limit_da
        } else {
            limits.max_charge_da
        };
        let discharge: u16 = if group.soc_percent <= limits.dod_min_percent {
            0
        } else {
            limits.max_discharge_da
        };
        let stamp: u64 = self.stamp(now);
        *self = CanonicalBatteryState {
            current_ma: group.current_ma,
            soc_percent: group.soc_percent,
            pack_temp_dc: group.pack_temp_dc,
            kwh_remaining_x100: group.kwh_remaining_x100,
            charge_limit_da: charge,
            discharge_limit_da: discharge,
            last_update_ms: stamp,
            updated: true,
            valid: true,
            ..*self
        };
        Ok(())
    }

    /// Merges a read cycle at time `now`: the state is then valid. A cycle
    /// that is not complete and consistent is refused: no value is written
    /// and the state is not valid.
    pub fn commit_cycle(&mut self, cycle: &CycleReadings, now: u64) -> (done: Result<
        (),
        StateError,
    >)
        ensures
            final(self)@.wf(),
            final(self)@.last_update_ms >= old(self)@.last_update_ms,
            cycle_mergeable(cycle@) ==> done.is_ok() && final(self)@ == old(self)@.with_cycle(
                cycle@,
                now,
            ),
            !cycle_mergeable(cycle@) ==> done == Err::<(), StateError>(StateError::IncompleteCycle)
                && final(self)@ == old(self)@.refused(),
    {
        proof {
            use_type_invariant(&*self);
        }
        if !cycle.is_complete() {
            self.refuse();
            return Err(StateError::IncompleteCycle);
        }
        let voltage: u16 = match cycle.pack_voltage_cv() {
            Some(voltage) => voltage,
            None => {
                self.refuse();
                return Err(StateError::IncompleteCycle);
            },
        };
        let temperatures = match cycle.temperatures() {
            Some(range) => range,
            None => {
                self.refuse();
                return Err(StateError::IncompleteCycle);
            },
        };
        let balancing: u8 = match cycle.balancing_cells() {
            Some(count) => count,
            None => {
                self.refuse();
                return Err(StateError::IncompleteCycle);
            },
        };
        let cells = cycle.cells();
        let range = min_max(cells_as_slice(&cells));
        proof {
            lemma_seq_min_is_least(cell_values(cells));
            lemma_seq_max_is_greatest(cell_values(cells));
        }
        let stamp: u64 = self.stamp(now);
        *self = CanonicalBatteryState {
            pack_voltage_cv: voltage,
            cell_min_mv: range.0,
            cell_max_mv: range.1,
            temp_min_c: temperatures.min_c,
            temp_max_c: temperatures.max_c,
            balancing_cells: balancing,
            last_update_ms: stamp,
            updated: true,
            valid: true,
            ..*self
        };
        Ok(())
    }

    /// Merges the readings of a pack that reports itself through periodic
    /// frames alone, at time `now`: the state is then valid. Readings of
    /// which one does not fit are refused: no value is written and the state
    /// is not valid.
    pub fn commit_pack(&mut self, pack: &PackReadings, now: u64) -> (done: Result<(), StateError>)
        ensures
            final(self)@.wf(),
            final(self)@.last_update_ms >= old(self)@.last_update_ms,
            pack_in_range(*pack) ==> done.is_ok() && final(self)@ == old(self)@.with_pack(
                *pack,
                now,
            ),
            !pack_in_range(*pack) ==> done == Err::<(), StateError>(StateError::OutOfRange)
                && final(self)@ == old(self)@.refused(),
    {
        proof {
            use_type_invariant(&*self);
        }
        if pack.pack_volts_dv > 6553 || pack.current_da < -30000 || pack.current_da > 30000
            || pack.kwh_remaining_dkwh > 6553 || pack.soc_percent > 100 {
            self.refuse();
            return Err(StateError::OutOfRange);
        }
        let stamp: u64 = self.stamp(now);
        *self = CanonicalBatteryState {
            pack_voltage_cv: pack.pack_volts_dv * 10,
            current_ma: pack.current_da * 100,
            kwh_remaining_x100: pack.kwh_remaining_dkwh * 10,
            soc_percent: pack.soc_percent as u8,
            last_update_ms: stamp,
            updated: true,
            valid: true,
            ..*self
        };
        Ok(())
    }

    /// Whether a complete update was merged at least once.
    pub fn updated(&self) -> (updated: bool)
        ensures
            updated == self@.updated,
    {
        self.updated
    }

    /// Whether the last update was merged whole.
    pub fn valid(&self) -> (valid: bool)
        ensures
            valid == self@.valid,
            self@.wf(),
    {
        proof {
            use_type_invariant(self);
        }
        self.valid
    }

    /// Time of the last update, in milliseconds.
    pub fn last_update_ms(&self) -> (stamp: u64)
        ensures
            stamp == self@.last_update_ms,
    {
        self.last_update_ms
    }

    /// Pack voltage in hundredths of a volt.
    pub fn pack_voltage_cv(&self) -> (value: u16)
        ensures
            value == self@.pack_voltage_cv,
    {
        self.pack_voltage_cv
    }

    /// Pack current in milliamperes.
    pub fn current_ma(&self) -> (value: i32)
        ensures
            value == self@.current_ma,
            -CURRENT_LIMIT_MA <= value <= CURRENT_LIMIT_MA,
    {
        proof {
            use_type_invariant(self);
        }
        self.current_ma
    }

    /// State of charge in whole percent.
    pub fn soc_percent(&self) -> (value: u8)
        ensures
            value == self@.soc_percent,
            value <= 100,
    {
        proof {
            use_type_invariant(self);
        }
        self.soc_percent
    }

    /// Lowest cell voltage in millivolts.
    pub fn cell_min_mv(&self) -> (value: u16)
        ensures
            value == self@.cell_min_mv,
    {
        self.cell_min_mv
    }

    /// Highest cell voltage in millivolts.
    pub fn cell_max_mv(&self) -> (value: u16)
        ensures
            value == self@.cell_max_mv,
    {
        self.cell_max_mv
    }

    /// Lowest cell temperature in degrees Celsius.
    pub fn temp_min_c(&self) -> (value: i8)
        ensures
            value == self@.temp_min_c,
    {
        self.temp_min_c
    }

    /// Highest cell temperature in degrees Celsius.
    pub fn temp_max_c(&self) -> (value: i8)
        ensures
            value == self@.temp_max_c,
    {
        self.temp_max_c
    }

    /// Pack temperature in tenths of a degree Celsius.
    pub fn pack_temp_dc(&self) -> (value: i16)
        ensures
            value == self@.pack_temp_dc,
    {
        self.pack_temp_dc
    }

    /// Number of cells that are balancing.
    pub fn balancing_cells(&self) -> (value: u8)
        ensures
            value == self@.balancing_cells,
    {
        self.balancing_cells
    }

    /// Remaining energy in hundredths of a kilowatt-hour.
    pub fn kwh_remaining_x100(&self) -> (value: u16)
        ensures
            value == self@.kwh_remaining_x100,
    {
        self.kwh_remaining_x100
    }

    /// Charge current limit in tenths of an ampere.
    pub fn charge_limit_da(&self) -> (value: u16)
        ensures
            value == self@.charge_limit_da,
    {
        self.charge_limit_da
    }

    /// Discharge current limit in tenths of an ampere.
    pub fn discharge_limit_da(&self) -> (value: u16)
        ensures
            value == self@.discharge_limit_da,
    {
        self.discharge_limit_da
    }
}

} // verus!
