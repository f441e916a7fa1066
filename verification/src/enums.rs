//! Lifecycle enumerations shared with the vendor SDK, and their numeric
//! encodings.
use vstd::prelude::*;

verus! {

/// A working mode that can be commanded to a device.
#[derive(Debug, Clone, Copy, PartialEq, Eq, Structural)]
pub enum LidarMode {
    LidarModeNormal,
    LidarModePowerSaving,
    LidarModeStandby,
}

/// The lifecycle state a device last reported.
#[derive(Debug, Clone, Copy, PartialEq, Eq, Structural)]
pub enum LidarState {
    LidarStateInit,
    LidarStateNormal,
    LidarStatePowerSaving,
    LidarStateStandBy,
    LidarStateError,
    LidarStateUnknown,
}

/// A set of lifecycle states, used as the predicate of a wait.
///
/// Each of the first six masks holds exactly the state it is named after.
/// `Any` holds all six states, `LidarStateUnknown` among them: a wait for it
/// is over at once.
#[derive(Debug, Clone, Copy, PartialEq, Eq, Structural)]
pub enum LidarStateMask {
    Init,
    Normal,
    PowerSaving,
    StandBy,
    Error,
    Unknown,
    Any,
}

/// The wire encoding a device uses for its points.
#[derive(Debug, Clone, Copy, PartialEq, Eq, Structural)]
pub enum CoordinateSystem {
    Cartesian,
    Spherical,
}

impl LidarMode {
    /// The number the SDK knows this mode by.
    pub open spec fn code(self) -> u32 {
        match self {
            LidarMode::LidarModeNormal => 1,
            LidarMode::LidarModePowerSaving => 2,
            LidarMode::LidarModeStandby => 3,
        }
    }

    /// The mode with the given number, if there is one.
    pub open spec fn of_code(code: u32) -> Option<LidarMode> {
        if code == 1 {
            Some(LidarMode::LidarModeNormal)
        } else if code == 2 {
            Some(LidarMode::LidarModePowerSaving)
        } else if code == 3 {
            Some(LidarMode::LidarModeStandby)
        } else {
            None
        }
    }

    /// Encodes the mode for the SDK.
    pub fn to_u32(&self) -> (code: u32)
        ensures
            code == self.code(),
    {
        match self {
            LidarMode::LidarModeNormal => 1,
            LidarMode::LidarModePowerSaving => 2,
            LidarMode::LidarModeStandby => 3,
        }
    }

    /// Decodes a mode number; `None` for a number that names no mode.
    pub fn from_u32(code: u32) -> (mode: Option<LidarMode>)
        ensures
            mode == LidarMode::of_code(code),
    {
        if code == 1 {
            Some(LidarMode::LidarModeNormal)
        } else if code == 2 {
            Some(LidarMode::LidarModePowerSaving)
        } else if code == 3 {
            Some(LidarMode::LidarModeStandby)
        } else {
            None
        }
    }
}

impl LidarState {
    /// The number the SDK reports this state as.
    pub open spec fn code(self) -> u32 {
        match self {
            LidarState::LidarStateInit => 0,
            LidarState::LidarStateNormal => 1,
            LidarState::LidarStatePowerSaving => 2,
            LidarState::LidarStateStandBy => 3,
            LidarState::LidarStateError => 4,
            LidarState::LidarStateUnknown => 5,
        }
    }

    /// The state with the given number, if there is one.
    pub open spec fn of_code(code: u32) -> Option<LidarState> {
        if code == 0 {
            Some(LidarState::LidarStateInit)
        } else if code == 1 {
            Some(LidarState::LidarStateNormal)
        } else if code == 2 {
            Some(LidarState::LidarStatePowerSaving)
        } else if code == 3 {
            Some(LidarState::LidarStateStandBy)
        } else if code == 4 {
            Some(LidarState::LidarStateError)
        } else if code == 5 {
            Some(LidarState::LidarStateUnknown)
        } else {
            None
        }
    }

    /// Encodes the state as the SDK does.
    pub fn to_u32(&self) -> (code: u32)
        ensures
            code == self.code(),
    {
        match self {
            LidarState::LidarStateInit => 0,
            LidarState::LidarStateNormal => 1,
            LidarState::LidarStatePowerSaving => 2,
            LidarState::LidarStateStandBy => 3,
            LidarState::LidarStateError => 4,
            LidarState::LidarStateUnknown => 5,
        }
    }

    /// Decodes a reported state number; `None` for a number that names no
    /// state.
    pub fn from_u32(code: u32) -> (state: Option<LidarState>)
        ensures
            state == LidarState::of_code(code),
    {
        if code == 0 {
            Some(LidarState::LidarStateInit)
        } else if code == 1 {
            Some(LidarState::LidarStateNormal)
        } else if code == 2 {
            Some(LidarState::LidarStatePowerSaving)
        } else if code == 3 {
            Some(LidarState::LidarStateStandBy)
        } else if code == 4 {
            Some(LidarState::LidarStateError)
        } else if code == 5 {
            Some(LidarState::LidarStateUnknown)
        } else {
            None
        }
    }
}

impl LidarStateMask {
    /// Whether `state` belongs to the set this mask stands for.
    pub open spec fn permits(self, state: LidarState) -> bool {
        match self {
            LidarStateMask::Init => state == LidarState::LidarStateInit,
            LidarStateMask::Normal => state == LidarState::LidarStateNormal,
            LidarStateMask::PowerSaving => state == LidarState::LidarStatePowerSaving,
            LidarStateMask::StandBy => state == LidarState::LidarStateStandBy,
            LidarStateMask::Error => state == LidarState::LidarStateError,
            LidarStateMask::Unknown => state == LidarState::LidarStateUnknown,
            LidarStateMask::Any => true,
        }
    }

    /// The mask as a bit set: bit `n` is set when the mask holds the state
    /// whose number is `n`.
    pub open spec fn mask_bits(self) -> u32 {
        match self {
            LidarStateMask::Init => 1,
            LidarStateMask::Normal => 2,
            LidarStateMask::PowerSaving => 4,
            LidarStateMask::StandBy => 8,
            LidarStateMask::Error => 16,
            LidarStateMask::Unknown => 32,
            LidarStateMask::Any => 0x3F,
        }
    }

    /// The mask as a bit set.
    pub fn bits(&self) -> (bits: u32)
        ensures
            bits == self.mask_bits(),
    {
        match self {
            LidarStateMask::Init => 1,
            LidarStateMask::Normal => 2,
            LidarStateMask::PowerSaving => 4,
            LidarStateMask::StandBy => 8,
            LidarStateMask::Error => 16,
            LidarStateMask::Unknown => 32,
            LidarStateMask::Any => 0x3F,
        }
    }

    /// Tests whether `state` satisfies the mask, by its bit.
    pub fn matches(&self, state: LidarState) -> (hit: bool)
        ensures
            hit == self.permits(state),
    {
        let bits: u32 = self.bits();
        let shift: u32 = state.to_u32();
        let bit: u32 = 1u32 << shift;
        proof {
            lemma_bit_test(bits, shift);
            lemma_shift_values();
        }
        bits & bit != 0
    }
}

/// A mask permits a state exactly when the bit that the state's number
/// names is set in the mask's bit set.
pub proof fn lemma_permits_is_bit_test(mask: LidarStateMask, state: LidarState)
    ensures
        mask.permits(state) <==> mask.mask_bits() & (1u32 << state.code()) != 0,
{
    lemma_bit_test(mask.mask_bits(), state.code());
    lemma_shift_values();
}

/// The mask for any state permits each of the six states, the unknown one
/// too.
pub proof fn lemma_any_permits_every_state(state: LidarState)
    ensures
        LidarStateMask::Any.permits(state),
        LidarStateMask::Any.mask_bits() == 0x3F,
{
}

/// The bit numbers of the six states, as the values their shifts give.
proof fn lemma_shift_values()
    ensures
        1u32 << 0u32 == 1,
        1u32 << 1u32 == 2,
        1u32 << 2u32 == 4,
        1u32 << 3u32 == 8,
        1u32 << 4u32 == 16,
        1u32 << 5u32 == 32,
{
    assert(1u32 << 0u32 == 1) by (bit_vector);
    assert(1u32 << 1u32 == 2) by (bit_vector);
    assert(1u32 << 2u32 == 4) by (bit_vector);
    assert(1u32 << 3u32 == 8) by (bit_vector);
    assert(1u32 << 4u32 == 16) by (bit_vector);
    assert(1u32 << 5u32 == 32) by (bit_vector);
}

/// For each mask value and each state number, whether the state's bit is
/// set in the mask.
proof fn lemma_bit_test(bits: u32, shift: u32)
    requires
        shift <= 5,
        bits == 1 || bits == 2 || bits == 4 || bits == 8 || bits == 16 || bits == 32 || bits
            == 0x3F,
    ensures
        (bits & (1u32 << shift) != 0) <==> (if bits == 0x3F {
            true
        } else {
            bits == 1u32 << shift
        }),
{
    assert((bits & (1u32 << shift) != 0) <==> (if bits == 0x3F {
        true
    } else {
        bits == 1u32 << shift
    })) by (bit_vector)
        requires
            shift <= 5,
            bits == 1 || bits == 2 || bits == 4 || bits == 8 || bits == 16 || bits == 32 || bits
                == 0x3F,
    ;
}

impl CoordinateSystem {
    /// The value of a packet's data-type field under this encoding.
    pub open spec fn data_type(self) -> u8 {
        match self {
            CoordinateSystem::Cartesian => 0,
            CoordinateSystem::Spherical => 1,
        }
    }

    /// The number of payload bytes one point takes under this encoding.
    pub open spec fn record_size(self) -> nat {
        match self {
            CoordinateSystem::Cartesian => 13,
            CoordinateSystem::Spherical => 9,
        }
    }

    /// The encoding that a data-type field names, if it names one.
    pub open spec fn of_data_type(data_type: u8) -> Option<CoordinateSystem> {
        if data_type == 0 {
            Some(CoordinateSystem::Cartesian)
        } else if data_type == 1 {
            Some(CoordinateSystem::Spherical)
        } else {
            None
        }
    }

    /// Decodes a packet's data-type field; `None` for a value that names no
    /// encoding.
    pub fn from_data_type(data_type: u8) -> (system: Option<CoordinateSystem>)
        ensures
            system == CoordinateSystem::of_data_type(data_type),
    {
        if data_type == 0 {
            Some(CoordinateSystem::Cartesian)
        } else if data_type == 1 {
            Some(CoordinateSystem::Spherical)
        } else {
            None
        }
    }

    /// The number of payload bytes one point takes under this encoding.
    pub fn record_len(&self) -> (len: usize)
        ensures
            len == self.record_size(),
    {
        match self {
            CoordinateSystem::Cartesian => 13,
            CoordinateSystem::Spherical => 9,
        }
    }
}

} // verus!
