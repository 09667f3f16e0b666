use vstd::prelude::*;

verus! {

/// The internal reference voltage, in millivolts.
pub const VREFINT_MV: u32 = 1200;

/// Converts an ADC sample to millivolts against a sample of the internal
/// reference; the result is truncated to 16 bits.
pub fn to_millivolts(sample: u16, vrefint_sample: u16) -> (r: u16)
    requires
        vrefint_sample > 0,
    ensures
        r == ((sample as int * VREFINT_MV as int / vrefint_sample as int) as u16),
{
    let s: u32 = sample as u32;
    assert(s * 1200 <= 65535 * 1200) by (nonlinear_arith)
        requires
            s <= 65535,
    ;
    (s * VREFINT_MV / vrefint_sample as u32) as u16
}

} // verus!
