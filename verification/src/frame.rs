//! CAN identifiers and frames as plain values.

use vstd::prelude::*;

verus! {

/// Largest standard (11-bit) identifier.
pub const STANDARD_ID_MAX: u16 = 0x7FF;

/// Largest extended (29-bit) identifier.
pub const EXTENDED_ID_MAX: u32 = 0x1FFF_FFFF;

/// Largest number of payload bytes in one frame.
pub const MAX_PAYLOAD: usize = 8;

/// A CAN identifier: standard (11-bit) or extended (29-bit).
#[derive(Clone, Copy, Debug, PartialEq, Eq, Structural)]
pub enum CanId {
    Standard(u16),
    Extended(u32),
}

impl CanId {
    /// The raw value fits the identifier's bit width.
    pub open spec fn in_range(self) -> bool {
        match self {
            CanId::Standard(raw) => raw <= STANDARD_ID_MAX,
            CanId::Extended(raw) => raw <= EXTENDED_ID_MAX,
        }
    }

    /// A standard identifier, if `raw` fits in 11 bits.
    pub fn standard(raw: u16) -> (id: Option<CanId>)
        ensures
            id == (if raw <= STANDARD_ID_MAX {
                Some(CanId::Standard(raw))
            } else {
                None
            }),
    {
        match checked_standard_raw(raw) {
            Some(checked) => Some(CanId::Standard(checked)),
            None => None,
        }
    }

    /// An extended identifier, if `raw` fits in 29 bits.
    pub fn extended(raw: u32) -> (id: Option<CanId>)
        ensures
            id == (if raw <= EXTENDED_ID_MAX {
                Some(CanId::Extended(raw))
            } else {
                None
            }),
    {
        match checked_extended_raw(raw) {
            Some(checked) => Some(CanId::Extended(checked)),
            None => None,
        }
    }

    /// Whether the raw value fits the identifier's bit width.
    pub fn is_in_range(&self) -> (ok: bool)
        ensures
            ok == self.in_range(),
    {
        match *self {
            CanId::Standard(raw) => checked_standard_raw(raw).is_some(),
            CanId::Extended(raw) => checked_extended_raw(raw).is_some(),
        }
    }
}

/// `embedded_hal::can::StandardId::new` followed by `as_raw`: the identifier
/// type accepts exactly the values up to `0x7FF` and hands the accepted value
/// back unchanged.
#[verifier::external_body]
fn checked_standard_raw(raw: u16) -> (checked: Option<u16>)
    ensures
        checked == (if raw <= STANDARD_ID_MAX {
            Some(raw)
        } else {
            None
        }),
{
    match embedded_hal::can::StandardId::new(raw) {
        Some(id) => Some(id.as_raw()),
        None => None,
    }
}

/// `embedded_hal::can::ExtendedId::new` followed by `as_raw`: the identifier
/// type accepts exactly the values up to `0x1FFF_FFFF` and hands the accepted
/// value back unchanged.
#[verifier::external_body]
fn checked_extended_raw(raw: u32) -> (checked: Option<u32>)
    ensures
        checked == (if raw <= EXTENDED_ID_MAX {
            Some(raw)
        } else {
            None
        }),
{
    match embedded_hal::can::ExtendedId::new(raw) {
        Some(id) => Some(id.as_raw()),
        None => None,
    }
}

/// What a frame is: its identifier and its payload bytes.
pub struct FrameView {
    pub id: CanId,
    pub payload: Seq<u8>,
}

/// One CAN data frame. Immutable once constructed: the identifier fits its
/// bit width and the payload holds at most eight bytes.
#[derive(Clone, Copy, Debug, PartialEq, Eq)]
pub struct CanFrame {
    id: CanId,
    bytes: [u8; 8],
    length: u8,
}

impl View for CanFrame {
    type V = FrameView;

    closed spec fn view(&self) -> FrameView {
        FrameView { id: self.id, payload: self.bytes@.subrange(0, self.length as int) }
    }
}

impl CanFrame {
    /// The identifier fits, the length is at most eight, and the bytes
    /// beyond the length are zero.
    #[verifier::type_invariant]
    closed spec fn well_formed(self) -> bool {
        &&& self.id.in_range()
        &&& self.length <= 8
        &&& forall|i: int| self.length <= i < 8 ==> self.bytes[i] == 0
    }

    /// Builds a frame. Fails exactly when the identifier does not fit its bit
    /// width or the payload is longer than eight bytes.
    pub fn new(id: CanId, payload: &[u8]) -> (frame: Option<CanFrame>)
        ensures
            frame.is_some() <==> (id.in_range() && payload@.len() <= MAX_PAYLOAD),
            frame.is_some() ==> frame.unwrap()@ == (FrameView { id, payload: payload@ }),
    {
        if !id.is_in_range() || payload.len() > MAX_PAYLOAD {
            return None;
        }
        Some(CanFrame::from_slice(id, payload))
    }

    /// A frame under an identifier known to fit, with a payload known to
    /// hold at most eight bytes.
    pub(crate) fn from_slice(id: CanId, payload: &[u8]) -> (frame: CanFrame)
        requires
            id.in_range(),
            payload@.len() <= MAX_PAYLOAD,
        ensures
            frame@ == (FrameView { id, payload: payload@ }),
    {
        let mut bytes: [u8; 8] = [0u8; 8];
        let mut i: usize = 0;
        while i < payload.len()
            invariant
                i <= payload@.len() <= 8,
                forall|k: int| 0 <= k < i ==> bytes[k] == payload@[k],
                forall|k: int| i <= k < 8 ==> bytes[k] == 0,
            decreases payload@.len() - i,
        {
            bytes[i] = payload[i];
            i += 1;
        }
        let frame = CanFrame { id, bytes, length: payload.len() as u8 };
        assert(frame@.payload =~= payload@);
        frame
    }

    /// A frame of eight payload bytes under an identifier known to fit.
    pub(crate) fn from_array(id: CanId, bytes: [u8; 8]) -> (frame: CanFrame)
        requires
            id.in_range(),
        ensures
            frame@ == (FrameView { id, payload: bytes@ }),
    {
        let frame = CanFrame { id, bytes, length: 8 };
        assert(frame@.payload =~= bytes@);
        frame
    }

    /// The frame's identifier.
    pub fn id(&self) -> (id: CanId)
        ensures
            id == self@.id,
            id.in_range(),
    {
        proof {
            use_type_invariant(self);
        }
        self.id
    }

    /// Number of payload bytes.
    pub fn len(&self) -> (n: usize)
        ensures
            n == self@.payload.len(),
            n <= MAX_PAYLOAD,
    {
        proof {
            use_type_invariant(self);
        }
        self.length as usize
    }

    /// Payload byte number `i`.
    pub fn byte(&self, i: usize) -> (b: u8)
        requires
            i < self@.payload.len(),
        ensures
            b == self@.payload[i as int],
    {
        proof {
            use_type_invariant(self);
        }
        self.bytes[i]
    }

    /// The payload bytes, in order.
    pub fn payload(&self) -> (bytes: Vec<u8>)
        ensures
            bytes@ == self@.payload,
    {
        proof {
            use_type_invariant(self);
        }
        let mut out: Vec<u8> = Vec::new();
        let mut i: usize = 0;
        while i < self.length as usize
            invariant
                i <= self.length <= 8,
                out@ == self.bytes@.subrange(0, i as int),
            decreases self.length - i,
        {
            out.push(self.bytes[i]);
            i += 1;
        }
        out
    }
}

} // verus!
