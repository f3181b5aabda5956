//! Counter assembly, the measurement record, and the register map of the
//! reference deployment.
//!
//! A counter is one logical accumulating quantity that the meter exposes
//! redundantly through four independent register reads: a signed decade
//! exponent, a signed 32-bit mantissa, a mantissa-like register carrying
//! the value in tenths, and the same quantity encoded directly as an
//! IEEE-754 single-precision value.  The coarse value of the counter is
//! `mantissa * 10^exp`; it is fully determined by the `exp` and
//! `mantissa` fields, and evaluating it as a machine float is left to
//! the consumer of the record.
//!
//! A measurement aggregates one poll cycle: the device identifier, the
//! device-reported runtime, the instantaneous electrical quantities and
//! three counters.  Decoding a measurement does no work beyond running
//! each primitive decoder on its block and aggregating the results.

use vstd::prelude::*;

use crate::modbus_datatypes::DecadeValue;
use crate::modbus_datatypes::DecodeError;
use crate::modbus_datatypes::float_bits;
use crate::modbus_datatypes::float_decoded;
use crate::modbus_datatypes::get_float;
use crate::modbus_datatypes::get_t2;
use crate::modbus_datatypes::t2_decoded;
use crate::modbus_datatypes::get_t3;
use crate::modbus_datatypes::get_t5;
use crate::modbus_datatypes::get_t6;
use crate::modbus_datatypes::get_t7;
use crate::modbus_datatypes::get_t17;
use crate::modbus_datatypes::signed16;
use crate::modbus_datatypes::signed32;
use crate::modbus_datatypes::t3_decoded;
use crate::modbus_datatypes::t5_decoded;
use crate::modbus_datatypes::t6_decoded;
use crate::modbus_datatypes::t7_decoded;
use crate::modbus_datatypes::t17_decoded;
use crate::modbus_datatypes::word_concat;

verus! {

/// One decoded accumulating counter.  The coarse value it denotes is
/// `mantissa * 10^exp`; the fine value is `x10_tenths / 10`; `ieee_bits`
/// is the independently read IEEE-754 single-precision bit pattern of
/// the same quantity.
#[derive(Clone, Copy, Debug, PartialEq, Eq, Structural)]
pub struct Counter {
    /// Signed decade exponent of the coarse value.
    pub exp: i32,
    /// Signed raw count; the coarse value is `mantissa * 10^exp`.
    pub mantissa: i32,
    /// The fine reading, pre-scaled by ten: the value in tenths.
    pub x10_tenths: i32,
    /// The native float reading, as its IEEE-754 bit pattern.
    pub ieee_bits: u32,
}

/// The four raw register blocks that one counter is read from.
#[derive(Clone, Debug)]
pub struct CounterWords {
    /// One word at the exponent address (decoded as T2).
    pub exp: Vec<u16>,
    /// Two words at the mantissa address (decoded as T3).
    pub mantissa: Vec<u16>,
    /// Two words at the tenths address (decoded as T3).
    pub x10: Vec<u16>,
    /// Two words at the float address (decoded as FLOAT).
    pub float: Vec<u16>,
}

/// Whether each block of a counter has the length its decoder requires.
pub open spec fn counter_lengths_ok(w: CounterWords) -> bool {
    &&& w.exp@.len() == 1
    &&& w.mantissa@.len() == 2
    &&& w.x10@.len() == 2
    &&& w.float@.len() == 2
}

/// The counter assembled from four raw blocks, or a length error when
/// any block has the wrong length.
pub open spec fn counter_assembled(w: CounterWords) -> Result<Counter, DecodeError> {
    if counter_lengths_ok(w) {
        Ok(Counter {
            exp: signed16(w.exp@[0]) as i32,
            mantissa: signed32(word_concat(w.mantissa@[0], w.mantissa@[1])) as i32,
            x10_tenths: signed32(word_concat(w.x10@[0], w.x10@[1])) as i32,
            ieee_bits: float_bits(w.float@[0], w.float@[1]),
        })
    } else {
        Err(DecodeError::InvalidInputLength)
    }
}

/// Assembles one counter from its four register blocks: T2 on the
/// exponent block, T3 on the mantissa and tenths blocks, FLOAT on the
/// float block.
pub fn assemble_counter(words: &CounterWords) -> (r: Result<Counter, DecodeError>)
    ensures
        r == counter_assembled(*words),
{
    let exp16: i16 = match get_t2(&words.exp) {
        Ok(v) => v,
        Err(e) => return Err(e),
    };
    let mantissa: i32 = match get_t3(&words.mantissa) {
        Ok(v) => v,
        Err(e) => return Err(e),
    };
    let x10_tenths: i32 = match get_t3(&words.x10) {
        Ok(v) => v,
        Err(e) => return Err(e),
    };
    let ieee_bits: u32 = match get_float(&words.float) {
        Ok(v) => v,
        Err(e) => return Err(e),
    };
    Ok(Counter { exp: exp16 as i32, mantissa, x10_tenths, ieee_bits })
}

/// The counter assembler is exactly the composition of the primitive
/// decoders: on blocks of the right lengths, its `exp` field is the T2
/// decode of the exponent block, its `mantissa` and `x10_tenths` fields
/// are the T3 decodes of the mantissa and tenths blocks, and its
/// `ieee_bits` field is the FLOAT decode of the float block.
pub proof fn lemma_counter_uses_primitive_decoders(w: CounterWords)
    requires
        counter_lengths_ok(w),
    ensures
        counter_assembled(w)->Ok_0.exp == t2_decoded(w.exp@)->Ok_0 as int,
        counter_assembled(w)->Ok_0.mantissa == t3_decoded(w.mantissa@)->Ok_0,
        counter_assembled(w)->Ok_0.x10_tenths == t3_decoded(w.x10@)->Ok_0,
        counter_assembled(w)->Ok_0.ieee_bits == float_decoded(w.float@)->Ok_0,
{
}

/// One decoded poll cycle: the device identity, the device-reported
/// runtime, the instantaneous electrical quantities and three counters.
#[derive(Clone, Copy, Debug, PartialEq, Eq, Structural)]
pub struct Measurement {
    /// Identifier of the polled device.
    pub device_id: i32,
    /// Device-reported runtime (T3).
    pub device_timestamp: i32,
    /// Line frequency (T5).
    pub frequency: DecadeValue,
    /// Line voltage U1 (T5).
    pub u1: DecadeValue,
    /// Line current I1 (T5).
    pub i1: DecadeValue,
    /// Active power total (T6).
    pub pt: DecadeValue,
    /// Reactive power total (T6).
    pub qt: DecadeValue,
    /// Apparent power total (T5).
    pub st: DecadeValue,
    /// Power factor total (T7), four implied decimal places.
    pub pft: i32,
    /// Internal temperature (T17).
    pub temp: DecadeValue,
    /// Voltage distortion U1 THD% (T17).
    pub u1_thd: DecadeValue,
    /// Current distortion I1 THD% (T17).
    pub i1_thd: DecadeValue,
    /// Counter C1: import active energy.
    pub c1: Counter,
    /// Counter C4: export reactive energy.
    pub c4: Counter,
    /// Counter X3: total absolute apparent energy.
    pub x3: Counter,
}

/// The raw register blocks of one poll cycle, one block per field of
/// the record.
#[derive(Clone, Debug)]
pub struct MeasurementWords {
    /// Two words at the runtime address.
    pub runtime: Vec<u16>,
    /// Two words at the frequency address.
    pub frequency: Vec<u16>,
    /// Two words at the U1 address.
    pub u1: Vec<u16>,
    /// Two words at the I1 address.
    pub i1: Vec<u16>,
    /// Two words at the active power total address.
    pub pt: Vec<u16>,
    /// Two words at the reactive power total address.
    pub qt: Vec<u16>,
    /// Two words at the apparent power total address.
    pub st: Vec<u16>,
    /// Two words at the power factor total address.
    pub pft: Vec<u16>,
    /// One word at the internal temperature address.
    pub temp: Vec<u16>,
    /// One word at the U1 THD% address.
    pub u1_thd: Vec<u16>,
    /// One word at the I1 THD% address.
    pub i1_thd: Vec<u16>,
    /// The four blocks of counter C1.
    pub c1: CounterWords,
    /// The four blocks of counter C4.
    pub c4: CounterWords,
    /// The four blocks of counter X3.
    pub x3: CounterWords,
}

/// Whether every block of a poll cycle has the length its decoder
/// requires.
pub open spec fn measurement_lengths_ok(w: MeasurementWords) -> bool {
    &&& w.runtime@.len() == 2
    &&& w.frequency@.len() == 2
    &&& w.u1@.len() == 2
    &&& w.i1@.len() == 2
    &&& w.pt@.len() == 2
    &&& w.qt@.len() == 2
    &&& w.st@.len() == 2
    &&& w.pft@.len() == 2
    &&& w.temp@.len() == 1
    &&& w.u1_thd@.len() == 1
    &&& w.i1_thd@.len() == 1
    &&& counter_lengths_ok(w.c1)
    &&& counter_lengths_ok(w.c4)
    &&& counter_lengths_ok(w.x3)
}

/// The measurement decoded from the raw blocks of one poll cycle, or a
/// length error when any block has the wrong length.
pub open spec fn measurement_decoded(device_id: u8, w: MeasurementWords) -> Result<
    Measurement,
    DecodeError,
> {
    if measurement_lengths_ok(w) {
        Ok(Measurement {
            device_id: device_id as i32,
            device_timestamp: t3_decoded(w.runtime@)->Ok_0,
            frequency: t5_decoded(w.frequency@)->Ok_0,
            u1: t5_decoded(w.u1@)->Ok_0,
            i1: t5_decoded(w.i1@)->Ok_0,
            pt: t6_decoded(w.pt@)->Ok_0,
            qt: t6_decoded(w.qt@)->Ok_0,
            st: t5_decoded(w.st@)->Ok_0,
            pft: t7_decoded(w.pft@)->Ok_0,
            temp: t17_decoded(w.temp@)->Ok_0,
            u1_thd: t17_decoded(w.u1_thd@)->Ok_0,
            i1_thd: t17_decoded(w.i1_thd@)->Ok_0,
            c1: counter_assembled(w.c1)->Ok_0,
            c4: counter_assembled(w.c4)->Ok_0,
            x3: counter_assembled(w.x3)->Ok_0,
        })
    } else {
        Err(DecodeError::InvalidInputLength)
    }
}

/// Decodes one poll cycle: runs each primitive decoder on its register
/// block and aggregates the results into a measurement record.
pub fn decode_measurement(device_id: u8, words: &MeasurementWords) -> (r: Result<
    Measurement,
    DecodeError,
>)
    ensures
        r == measurement_decoded(device_id, *words),
{
    let device_timestamp: i32 = match get_t3(&words.runtime) {
        Ok(v) => v,
        Err(e) => return Err(e),
    };
    let frequency: DecadeValue = match get_t5(&words.frequency) {
        Ok(v) => v,
        Err(e) => return Err(e),
    };
    let u1: DecadeValue = match get_t5(&words.u1) {
        Ok(v) => v,
        Err(e) => return Err(e),
    };
    let i1: DecadeValue = match get_t5(&words.i1) {
        Ok(v) => v,
        Err(e) => return Err(e),
    };
    let pt: DecadeValue = match get_t6(&words.pt) {
        Ok(v) => v,
        Err(e) => return Err(e),
    };
    let qt: DecadeValue = match get_t6(&words.qt) {
        Ok(v) => v,
        Err(e) => return Err(e),
    };
    let st: DecadeValue = match get_t5(&words.st) {
        Ok(v) => v,
        Err(e) => return Err(e),
    };
    let pft: i32 = match get_t7(&words.pft) {
        Ok(v) => v,
        Err(e) => return Err(e),
    };
    let temp: DecadeValue = match get_t17(&words.temp) {
        Ok(v) => v,
        Err(e) => return Err(e),
    };
    let u1_thd: DecadeValue = match get_t17(&words.u1_thd) {
        Ok(v) => v,
        Err(e) => return Err(e),
    };
    let i1_thd: DecadeValue = match get_t17(&words.i1_thd) {
        Ok(v) => v,
        Err(e) => return Err(e),
    };
    let c1: Counter = match assemble_counter(&words.c1) {
        Ok(v) => v,
        Err(e) => return Err(e),
    };
    let c4: Counter = match assemble_counter(&words.c4) {
        Ok(v) => v,
        Err(e) => return Err(e),
    };
    let x3: Counter = match assemble_counter(&words.x3) {
        Ok(v) => v,
        Err(e) => return Err(e),
    };
    Ok(
        Measurement {
            device_id: device_id as i32,
            device_timestamp,
            frequency,
            u1,
            i1,
            pt,
            qt,
            st,
            pft,
            temp,
            u1_thd,
            i1_thd,
            c1,
            c4,
            x3,
        },
    )
}

/// Register address of the runtime field.
pub const ADDR_RUNTIME: u16 = 103;

/// Register address of the frequency field.
pub const ADDR_FREQUENCY: u16 = 105;

/// Register address of the U1 voltage field.
pub const ADDR_U1: u16 = 107;

/// Register address of the I1 current field.
pub const ADDR_I1: u16 = 126;

/// Register address of the active power total field.
pub const ADDR_PT: u16 = 140;

/// Register address of the reactive power total field.
pub const ADDR_QT: u16 = 148;

/// Register address of the apparent power total field.
pub const ADDR_ST: u16 = 156;

/// Register address of the power factor total field.
pub const ADDR_PFT: u16 = 164;

/// Register address of the internal temperature field.
pub const ADDR_TEMP: u16 = 181;

/// Register address of the U1 THD% field.
pub const ADDR_U1_THD: u16 = 182;

/// Register address of the I1 THD% field.
pub const ADDR_I1_THD: u16 = 188;

/// Register addresses of counter C1 (import active energy):
/// exponent, mantissa, tenths, float.
pub const ADDR_C1_EXP: u16 = 401;

/// Mantissa address of counter C1.
pub const ADDR_C1_MANTISSA: u16 = 406;

/// Tenths address of counter C1.
pub const ADDR_C1_X10: u16 = 462;

/// Float address of counter C1.
pub const ADDR_C1_FLOAT: u16 = 2638;

/// Exponent address of counter C4 (export reactive energy).
pub const ADDR_C4_EXP: u16 = 404;

/// Mantissa address of counter C4.
pub const ADDR_C4_MANTISSA: u16 = 412;

/// Tenths address of counter C4.
pub const ADDR_C4_X10: u16 = 468;

/// Float address of counter C4.
pub const ADDR_C4_FLOAT: u16 = 2644;

/// Exponent address of counter X3 (total absolute apparent energy).
pub const ADDR_X3_EXP: u16 = 448;

/// Mantissa address of counter X3.
pub const ADDR_X3_MANTISSA: u16 = 418;

/// Tenths address of counter X3.
pub const ADDR_X3_X10: u16 = 474;

/// Float address of counter X3.
pub const ADDR_X3_FLOAT: u16 = 2764;

/// Word count of a counter's exponent block.
pub const WORDS_COUNTER_EXP: u16 = 1;

/// Word count of a counter's mantissa block.
pub const WORDS_COUNTER_MANTISSA: u16 = 2;

/// Word count of a counter's tenths block.
pub const WORDS_COUNTER_X10: u16 = 2;

/// Word count of a counter's float block.
pub const WORDS_COUNTER_FLOAT: u16 = 2;

/// Word count of a two-word field (T3, T5, T6, T7 and FLOAT).
pub const WORDS_LONG: u16 = 2;

/// Word count of a one-word field (T1, T2, T16 and T17).
pub const WORDS_SINGLE: u16 = 1;

} // verus!
