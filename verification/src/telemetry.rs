//! The snapshot of the battery state that is handed out for export.

use vstd::prelude::*;
use crate::state::{CanonicalBatteryState, StateView};

verus! {

/// What the export channel is told to do.
#[allow(non_camel_case_types)]
#[derive(Clone, Copy, Debug, PartialEq, Eq, Structural)]
pub enum CommsState {
    CAN1RX,
    CAN1TX,
    CAN2RX,
    CAN2TX,
    UpdateMqtt,
}

/// The values that are exported, as whole numbers in the units of the
/// battery state.
#[derive(Clone, Copy, Debug, PartialEq, Eq, Structural)]
pub struct Telemetry {
    /// State of charge in whole percent.
    pub soc_percent: u8,
    /// Pack voltage in hundredths of a volt.
    pub pack_voltage_cv: u16,
    /// Highest cell voltage in millivolts.
    pub cell_mv_high: u16,
    /// Lowest cell voltage in millivolts.
    pub cell_mv_low: u16,
    /// Highest cell temperature in degrees Celsius.
    pub cell_temp_high_c: i8,
    /// Lowest cell temperature in degrees Celsius.
    pub cell_temp_low_c: i8,
    /// Pack current in milliamperes.
    pub current_ma: i32,
    /// Remaining energy in hundredths of a kilowatt-hour.
    pub kwh_x100: u16,
    /// Charge current limit in tenths of an ampere.
    pub charge_da: u16,
    /// Discharge current limit in tenths of an ampere.
    pub discharge_da: u16,
    /// Number of cells that are balancing.
    pub bal: u8,
    /// Whether the battery state was valid when the snapshot was taken.
    pub valid: bool,
}

/// The snapshot of a state.
pub open spec fn snapshot_of(state: StateView) -> Telemetry {
    Telemetry {
        soc_percent: state.soc_percent,
        pack_voltage_cv: state.pack_voltage_cv,
        cell_mv_high: state.cell_max_mv,
        cell_mv_low: state.cell_min_mv,
        cell_temp_high_c: state.temp_max_c,
        cell_temp_low_c: state.temp_min_c,
        current_ma: state.current_ma,
        kwh_x100: state.kwh_remaining_x100,
        charge_da: state.charge_limit_da,
        discharge_da: state.discharge_limit_da,
        bal: state.balancing_cells,
        valid: state.valid,
    }
}

/// Whether an export is due at `now`: not before `period_ms` has passed
/// since the last one at `last_sent`.
pub open spec fn export_is_due(now: u64, last_sent: u64, period_ms: u64) -> bool {
    now - last_sent >= period_ms
}

impl Telemetry {
    /// Takes the values of the battery state over.
    pub fn update(&mut self, state: &CanonicalBatteryState)
        ensures
            *final(self) == snapshot_of(state@),
    {
        self.soc_percent = state.soc_percent();
        self.pack_voltage_cv = state.pack_voltage_cv();
        self.cell_mv_high = state.cell_max_mv();
        self.cell_mv_low = state.cell_min_mv();
        self.cell_temp_high_c = state.temp_max_c();
        self.cell_temp_low_c = state.temp_min_c();
        self.current_ma = state.current_ma();
        self.kwh_x100 = state.kwh_remaining_x100();
        self.charge_da = state.charge_limit_da();
        self.discharge_da = state.discharge_limit_da();
        self.bal = state.balancing_cells();
        self.valid = state.valid();
    }

    /// Whether an export is due at `now`.
    pub fn is_due(now: u64, last_sent: u64, period_ms: u64) -> (due: bool)
        ensures
            due == export_is_due(now, last_sent, period_ms),
    {
        now >= last_sent && now - last_sent >= period_ms
    }
}

impl Default for Telemetry {
    /// A snapshot in which every value is zero and that is not valid.
    fn default() -> (telemetry: Telemetry)
        ensures
            telemetry == snapshot_of(StateView::initial()),
    {
        Telemetry {
            soc_percent: 0,
            pack_voltage_cv: 0,
            cell_mv_high: 0,
            cell_mv_low: 0,
            cell_temp_high_c: 0,
            cell_temp_low_c: 0,
            current_ma: 0,
            kwh_x100: 0,
            charge_da: 0,
            discharge_da: 0,
            bal: 0,
            valid: false,
        }
    }
}

} // verus!
