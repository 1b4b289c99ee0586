//! xHCI transfer request blocks: layouts, type and completion codes.

use vstd::prelude::*;

verus! {

/// TRB type field values.
#[derive(PartialEq, Eq, Structural, Debug, Clone, Copy)]
pub enum TrbType {
    Normal,
    SetupStage,
    DataStage,
    StatusStage,
    Isoch,
    Link,
    EventData,
    NoOp,
    EnableSlot,
    DisableSlot,
    AddressDevice,
    ConfigureEndpoint,
    EvaluateContext,
    ResetEndpoint,
    StopEndpoint,
    SetDequeuePointer,
    ResetDevice,
    ForceEvent,
    NegotiateBandwidth,
    SetLatencyToleranceValue,
    GetPortBandwidth,
    ForceHeader,
    NoOpCommand,
    GetExtendedProperty,
    SetExtendedProperty,
    TransferEvent,
    CommandCompletion,
    PortStatusChangeEvent,
    BandwidthRequest,
    DoorbellEvent,
    HostControllerEvent,
    DeviceNotificationEvent,
    MfindexWrapEvent,
}

/// TRB common fields.
#[derive(PartialEq, Eq, Structural, Debug, Clone, Copy)]
pub struct TrbCommon {
    pub param0: u64,
    pub param1: u32,
    pub control: u32,
}

/// Normal TRB (bulk/interrupt transfers, also used as the generic
/// command/transfer TRB shape).
#[derive(PartialEq, Eq, Structural, Debug, Clone, Copy)]
pub struct NormalTrb {
    pub data_ptr: u64,
    pub status: u32,
    pub control: u32,
}

/// Setup stage TRB.
#[derive(PartialEq, Eq, Structural, Debug, Clone, Copy)]
pub struct SetupTrb {
    pub request: u64,
    pub status: u32,
    pub control: u32,
}

/// Status stage TRB.
#[derive(PartialEq, Eq, Structural, Debug, Clone, Copy)]
pub struct StatusTrb {
    pub reserved: u64,
    pub status: u32,
    pub control: u32,
}

/// Link TRB.
#[derive(PartialEq, Eq, Structural, Debug, Clone, Copy)]
pub struct LinkTrb {
    pub ptr: u64,
    pub status: u32,
    pub control: u32,
}

/// Event TRB (in the event ring).
#[derive(PartialEq, Eq, Structural, Debug, Clone, Copy)]
pub struct EventTrb {
    pub trb_ptr: u64,
    pub status: u32,
    pub control: u32,
}

/// TRB completion codes.
#[derive(PartialEq, Eq, Structural, Debug, Clone, Copy)]
pub enum CompletionCode {
    Success,
    TrbError,
    Stall,
    ResourceError,
    BandwidthError,
    NoSlotsError,
    InvalidStreamTypeError,
    SlotNotEnabledError,
    EpNotEnabledError,
    ShortPacket,
    RingUnderrun,
    RingOverrun,
    VfEventRingFullError,
    ParameterError,
    BandwidthOverrunError,
    ContextStateError,
    NoPingResponseError,
    EventRingFullError,
    IncompatibleDeviceError,
    MissedServiceError,
    CommandRingStopped,
    CommandAborted,
    Stopped,
    StoppedLengthInvalid,
    StoppedShortPacket,
    MaxExitLatencyTooLarge,
    IsochBufferOverrun,
    EventLostError,
    UndefinedError,
    InvalidStreamIdError,
    SecondaryBandwidthError,
    SplitTransactionError,
}

/// The completion code a raw value denotes; unknown values read as a TRB
/// error.
pub open spec fn completion_code_of(value: u8) -> CompletionCode {
    match value {
        1 => CompletionCode::Success,
        2 => CompletionCode::TrbError,
        3 => CompletionCode::Stall,
        4 => CompletionCode::ResourceError,
        5 => CompletionCode::BandwidthError,
        6 => CompletionCode::NoSlotsError,
        7 => CompletionCode::InvalidStreamTypeError,
        8 => CompletionCode::SlotNotEnabledError,
        9 => CompletionCode::EpNotEnabledError,
        13 => CompletionCode::ShortPacket,
        14 => CompletionCode::RingUnderrun,
        15 => CompletionCode::RingOverrun,
        16 => CompletionCode::VfEventRingFullError,
        17 => CompletionCode::ParameterError,
        18 => CompletionCode::BandwidthOverrunError,
        19 => CompletionCode::ContextStateError,
        20 => CompletionCode::NoPingResponseError,
        21 => CompletionCode::EventRingFullError,
        22 => CompletionCode::IncompatibleDeviceError,
        23 => CompletionCode::MissedServiceError,
        24 => CompletionCode::CommandRingStopped,
        25 => CompletionCode::CommandAborted,
        26 => CompletionCode::Stopped,
        27 => CompletionCode::StoppedLengthInvalid,
        28 => CompletionCode::StoppedShortPacket,
        29 => CompletionCode::MaxExitLatencyTooLarge,
        31 => CompletionCode::IsochBufferOverrun,
        32 => CompletionCode::EventLostError,
        33 => CompletionCode::UndefinedError,
        34 => CompletionCode::InvalidStreamIdError,
        35 => CompletionCode::SecondaryBandwidthError,
        36 => CompletionCode::SplitTransactionError,
        _ => CompletionCode::TrbError,
    }
}

impl CompletionCode {
    /// The completion code a raw value denotes.
    pub fn from_code(value: u8) -> (r: CompletionCode)
        ensures
            r == completion_code_of(value),
    {
        match value {
            1 => CompletionCode::Success,
            2 => CompletionCode::TrbError,
            3 => CompletionCode::Stall,
            4 => CompletionCode::ResourceError,
            5 => CompletionCode::BandwidthError,
            6 => CompletionCode::NoSlotsError,
            7 => CompletionCode::InvalidStreamTypeError,
            8 => CompletionCode::SlotNotEnabledError,
            9 => CompletionCode::EpNotEnabledError,
            13 => CompletionCode::ShortPacket,
            14 => CompletionCode::RingUnderrun,
            15 => CompletionCode::RingOverrun,
            16 => CompletionCode::VfEventRingFullError,
            17 => CompletionCode::ParameterError,
            18 => CompletionCode::BandwidthOverrunError,
            19 => CompletionCode::ContextStateError,
            20 => CompletionCode::NoPingResponseError,
            21 => CompletionCode::EventRingFullError,
            22 => CompletionCode::IncompatibleDeviceError,
            23 => CompletionCode::MissedServiceError,
            24 => CompletionCode::CommandRingStopped,
            25 => CompletionCode::CommandAborted,
            26 => CompletionCode::Stopped,
            27 => CompletionCode::StoppedLengthInvalid,
            28 => CompletionCode::StoppedShortPacket,
            29 => CompletionCode::MaxExitLatencyTooLarge,
            31 => CompletionCode::IsochBufferOverrun,
            32 => CompletionCode::EventLostError,
            33 => CompletionCode::UndefinedError,
            34 => CompletionCode::InvalidStreamIdError,
            35 => CompletionCode::SecondaryBandwidthError,
            36 => CompletionCode::SplitTransactionError,
            _ => CompletionCode::TrbError,
        }
    }
}

impl From<u8> for CompletionCode {
    fn from(value: u8) -> (r: Self) {
        CompletionCode::from_code(value)
    }
}

impl vstd::std_specs::convert::FromSpecImpl<u8> for CompletionCode {
    open spec fn obeys_from_spec() -> bool {
        true
    }

    open spec fn from_spec(v: u8) -> Self {
        completion_code_of(v)
    }
}

/// TRB control bits.
pub const TRB_CYCLE_BIT: u32 = 1;
pub const TRB_IOC: u32 = 32;
pub const TRB_CHAIN_BIT: u32 = 16;
pub const TRB_TOGGLE_CYCLE_BIT: u32 = 2;
pub const TRB_ENT_BULK_OUT: u32 = 0x10000;
pub const TRB_ENT_BULK_IN: u32 = 0x20000;
pub const TRB_ENT_INTERRUPT_IN: u32 = 0x30000;

/// Ring size (power of 2).
pub const TRB_RING_SIZE: usize = 16;

/// The TRB type field (bits 10-15) of a control word.
pub open spec fn type_field(control: u32) -> int {
    (control as int / 1024) % 64
}

/// The TRB type a type field value denotes; values not produced by this
/// driver read as no-op.
pub open spec fn trb_type_of(v: int) -> TrbType {
    if v == 1 {
        TrbType::Normal
    } else if v == 2 {
        TrbType::SetupStage
    } else if v == 3 {
        TrbType::DataStage
    } else if v == 4 {
        TrbType::StatusStage
    } else if v == 5 {
        TrbType::Isoch
    } else if v == 6 {
        TrbType::Link
    } else if v == 7 {
        TrbType::EventData
    } else if v == 32 {
        TrbType::TransferEvent
    } else if v == 33 {
        TrbType::CommandCompletion
    } else {
        TrbType::NoOp
    }
}

/// Extracts the type field (bits 10-15) of a control word.
pub fn control_type_field(control: u32) -> (r: u8)
    ensures
        r == type_field(control),
{
    let v = ((control >> 10) & 0x3F) as u8;
    proof {
        crate::bits::lemma_u32_fields();
    }
    assert(((control >> 10) & 0x3F) == (control / 1024) % 64);
    v
}

/// TRB type of a control word.
pub fn trb_type(control: u32) -> (r: TrbType)
    ensures
        r == trb_type_of(type_field(control)),
{
    let type_val = control_type_field(control);
    match type_val {
        1 => TrbType::Normal,
        2 => TrbType::SetupStage,
        3 => TrbType::DataStage,
        4 => TrbType::StatusStage,
        5 => TrbType::Isoch,
        6 => TrbType::Link,
        7 => TrbType::EventData,
        8 => TrbType::NoOp,
        32 => TrbType::TransferEvent,
        33 => TrbType::CommandCompletion,
        _ => TrbType::NoOp,
    }
}

/// The completion code field (bits 24-31) of a status word.
pub open spec fn code_field(status: u32) -> u8 {
    (status as int / 0x100_0000) as u8
}

/// Completion code of a status word.
pub fn completion_code(status: u32) -> (r: CompletionCode)
    ensures
        r == completion_code_of(code_field(status)),
{
    let code = (status >> 24) as u8;
    proof {
        crate::bits::lemma_u32_fields();
    }
    assert((status >> 24) == status / 0x100_0000);
    CompletionCode::from_code(code)
}

} // verus!
