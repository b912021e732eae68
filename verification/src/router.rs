//! The router: where a received frame goes.

use vstd::prelude::*;
use crate::diag::RESPONSE_ID;
use crate::encoder::ID_DATA_REQUEST;
use crate::frame::{CanFrame, CanId};
use crate::rapid::{ID_GROUP_END, ID_PACK_ENERGY, ID_PACK_STATUS, ID_PACK_TEMPERATURE};

verus! {

/// Where a frame goes.
#[derive(Clone, Copy, Debug, PartialEq, Eq, Structural)]
pub enum Destination {
    /// To the rapid processor.
    Rapid,
    /// To the diagnostic sequencer.
    Diagnostic,
    /// To the inverter encoder, as a request for the frame set.
    Encoder,
    /// Nowhere.
    Dropped,
}

/// The bus that a frame came from.
#[derive(Clone, Copy, Debug, PartialEq, Eq, Structural)]
pub enum Bus {
    Battery,
    Inverter,
}

/// Where frames under an identifier go: the four broadcasts to the rapid
/// processor, the diagnostic answer to the sequencer, the inverter's data
/// request to the encoder, anything else nowhere.
pub open spec fn destination(id: CanId) -> Destination {
    match id {
        CanId::Standard(raw) => if raw == ID_PACK_STATUS || raw == ID_PACK_TEMPERATURE || raw
            == ID_PACK_ENERGY || raw == ID_GROUP_END {
            Destination::Rapid
        } else if raw == RESPONSE_ID {
            Destination::Diagnostic
        } else {
            Destination::Dropped
        },
        CanId::Extended(raw) => if raw == ID_DATA_REQUEST {
            Destination::Encoder
        } else {
            Destination::Dropped
        },
    }
}

/// Whether a bus takes frames under an identifier in: the battery bus those
/// for the rapid processor and the sequencer, the inverter bus those for the
/// encoder.
pub open spec fn admitted(bus: Bus, id: CanId) -> bool {
    match bus {
        Bus::Battery => destination(id) == Destination::Rapid || destination(id)
            == Destination::Diagnostic,
        Bus::Inverter => destination(id) == Destination::Encoder,
    }
}

/// Where frames under an identifier go.
pub fn route_id(id: CanId) -> (to: Destination)
    ensures
        to == destination(id),
{
    match id {
        CanId::Standard(raw) => {
            if raw == ID_PACK_STATUS || raw == ID_PACK_TEMPERATURE || raw == ID_PACK_ENERGY || raw
                == ID_GROUP_END {
                Destination::Rapid
            } else if raw == RESPONSE_ID {
                Destination::Diagnostic
            } else {
                Destination::Dropped
            }
        },
        CanId::Extended(raw) => {
            if raw == ID_DATA_REQUEST {
                Destination::Encoder
            } else {
                Destination::Dropped
            }
        },
    }
}

/// Where a frame goes.
pub fn route(frame: &CanFrame) -> (to: Destination)
    ensures
        to == destination(frame@.id),
{
    route_id(frame.id())
}

/// Whether a bus takes a frame in.
pub fn admits(bus: Bus, frame: &CanFrame) -> (taken: bool)
    ensures
        taken == admitted(bus, frame@.id),
{
    let to = route(frame);
    match bus {
        Bus::Battery => match to {
            Destination::Rapid => true,
            Destination::Diagnostic => true,
            _ => false,
        },
        Bus::Inverter => match to {
            Destination::Encoder => true,
            _ => false,
        },
    }
}

} // verus!
