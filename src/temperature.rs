//! The three temperature types. Each holds its magnitude on the absolute scale
//! as a binary64 bit pattern that is never below zero.
use crate::binary64::{
    cmp_bits, eq_bits, is_negative, is_non_negative, is_non_negative_bits, value_cmp, value_eq,
    ZERO_BITS,
};
use core::cmp::Ordering;
use vstd::prelude::*;
use vstd::std_specs::cmp::PartialEqSpec;
use vstd::std_specs::convert::FromSpec;

verus! {

/// What construction from a magnitude keeps: the magnitude itself where it is
/// `>= 0.0`, absolute zero (positive zero) where it is below zero or a NaN.
pub open spec fn clamped(b: u64) -> u64 {
    if is_non_negative(b) {
        b
    } else {
        ZERO_BITS
    }
}

/// A temperature on the absolute scale.
#[derive(Debug, Clone, Copy)]
pub struct Kelvin {
    bits: u64,
}

impl View for Kelvin {
    type V = u64;

    /// The bit pattern of the magnitude.
    closed spec fn view(&self) -> u64 {
        self.bits
    }
}

impl Kelvin {
    #[verifier::type_invariant]
    closed spec fn wf(self) -> bool {
        is_non_negative(self.bits)
    }

    /// The temperature whose magnitude has the bit pattern `bits`, clamped to
    /// absolute zero where that value is below zero or a NaN.
    pub fn from_bits(bits: u64) -> (r: Kelvin)
        ensures
            r@ == clamped(bits),
            is_non_negative(r@),
    {
        if is_non_negative_bits(bits) {
            Kelvin { bits }
        } else {
            Kelvin { bits: ZERO_BITS }
        }
    }

    /// The bit pattern of the magnitude, which is never below zero.
    pub fn to_bits(&self) -> (r: u64)
        ensures
            r == self@,
            is_non_negative(r),
    {
        proof {
            use_type_invariant(self);
        }
        self.bits
    }
}

impl PartialEq for Kelvin {
    fn eq(&self, other: &Kelvin) -> (r: bool) {
        eq_bits(self.bits, other.bits)
    }
}

impl vstd::std_specs::cmp::PartialEqSpecImpl for Kelvin {
    open spec fn obeys_eq_spec() -> bool {
        true
    }

    /// The magnitudes are equal as binary64 numbers.
    open spec fn eq_spec(&self, other: &Kelvin) -> bool {
        value_eq(self@, other@)
    }
}

impl PartialOrd for Kelvin {
    fn partial_cmp(&self, other: &Kelvin) -> (r: Option<Ordering>) {
        cmp_bits(self.bits, other.bits)
    }
}

impl vstd::std_specs::cmp::PartialOrdSpecImpl for Kelvin {
    open spec fn obeys_partial_cmp_spec() -> bool {
        true
    }

    /// The magnitudes compare as binary64 numbers do.
    open spec fn partial_cmp_spec(&self, other: &Kelvin) -> Option<Ordering> {
        value_cmp(self@, other@)
    }
}

/// A temperature on the offset scale whose zero lies 273 degrees above
/// absolute zero. It holds its absolute magnitude.
#[derive(Debug, Clone, Copy)]
pub struct Celcius {
    absolute: Kelvin,
}

/// A temperature on the offset scale whose degree is five ninths of an
/// absolute one and whose 32 lies 273 degrees above absolute zero. It holds
/// its absolute magnitude.
#[derive(Debug, Clone, Copy)]
pub struct Fahrenheit {
    absolute: Kelvin,
}

impl View for Celcius {
    type V = u64;

    /// The bit pattern of the absolute magnitude.
    closed spec fn view(&self) -> u64 {
        self.absolute@
    }
}

impl View for Fahrenheit {
    type V = u64;

    /// The bit pattern of the absolute magnitude.
    closed spec fn view(&self) -> u64 {
        self.absolute@
    }
}

impl From<Kelvin> for Celcius {
    fn from(item: Kelvin) -> (r: Celcius)
        ensures
            r@ == item@,
    {
        Celcius { absolute: item }
    }
}

impl vstd::std_specs::convert::FromSpecImpl<Kelvin> for Celcius {
    open spec fn obeys_from_spec() -> bool {
        true
    }

    /// The same temperature: the absolute magnitude is kept.
    closed spec fn from_spec(item: Kelvin) -> Celcius {
        Celcius { absolute: item }
    }
}

impl From<Kelvin> for Fahrenheit {
    fn from(item: Kelvin) -> (r: Fahrenheit)
        ensures
            r@ == item@,
    {
        Fahrenheit { absolute: item }
    }
}

impl vstd::std_specs::convert::FromSpecImpl<Kelvin> for Fahrenheit {
    open spec fn obeys_from_spec() -> bool {
        true
    }

    closed spec fn from_spec(item: Kelvin) -> Fahrenheit {
        Fahrenheit { absolute: item }
    }
}

impl From<Celcius> for Kelvin {
    fn from(item: Celcius) -> (r: Kelvin)
        ensures
            r@ == item@,
    {
        item.absolute
    }
}

impl vstd::std_specs::convert::FromSpecImpl<Celcius> for Kelvin {
    open spec fn obeys_from_spec() -> bool {
        true
    }

    closed spec fn from_spec(item: Celcius) -> Kelvin {
        item.absolute
    }
}

impl From<Fahrenheit> for Kelvin {
    fn from(item: Fahrenheit) -> (r: Kelvin)
        ensures
            r@ == item@,
    {
        item.absolute
    }
}

impl vstd::std_specs::convert::FromSpecImpl<Fahrenheit> for Kelvin {
    open spec fn obeys_from_spec() -> bool {
        true
    }

    closed spec fn from_spec(item: Fahrenheit) -> Kelvin {
        item.absolute
    }
}

impl From<Celcius> for Fahrenheit {
    fn from(item: Celcius) -> (r: Fahrenheit)
        ensures
            r@ == item@,
    {
        Fahrenheit { absolute: item.absolute }
    }
}

impl vstd::std_specs::convert::FromSpecImpl<Celcius> for Fahrenheit {
    open spec fn obeys_from_spec() -> bool {
        true
    }

    closed spec fn from_spec(item: Celcius) -> Fahrenheit {
        Fahrenheit { absolute: item.absolute }
    }
}

impl From<Fahrenheit> for Celcius {
    fn from(item: Fahrenheit) -> (r: Celcius)
        ensures
            r@ == item@,
    {
        Celcius { absolute: item.absolute }
    }
}

impl vstd::std_specs::convert::FromSpecImpl<Fahrenheit> for Celcius {
    open spec fn obeys_from_spec() -> bool {
        true
    }

    closed spec fn from_spec(item: Fahrenheit) -> Celcius {
        Celcius { absolute: item.absolute }
    }
}

impl PartialEq for Celcius {
    fn eq(&self, other: &Celcius) -> (r: bool) {
        self.absolute.eq(&other.absolute)
    }
}

impl vstd::std_specs::cmp::PartialEqSpecImpl for Celcius {
    open spec fn obeys_eq_spec() -> bool {
        true
    }

    open spec fn eq_spec(&self, other: &Celcius) -> bool {
        value_eq(self@, other@)
    }
}

impl PartialOrd for Celcius {
    fn partial_cmp(&self, other: &Celcius) -> (r: Option<Ordering>) {
        self.absolute.partial_cmp(&other.absolute)
    }
}

impl vstd::std_specs::cmp::PartialOrdSpecImpl for Celcius {
    open spec fn obeys_partial_cmp_spec() -> bool {
        true
    }

    open spec fn partial_cmp_spec(&self, other: &Celcius) -> Option<Ordering> {
        value_cmp(self@, other@)
    }
}

impl PartialEq for Fahrenheit {
    fn eq(&self, other: &Fahrenheit) -> (r: bool) {
        self.absolute.eq(&other.absolute)
    }
}

impl vstd::std_specs::cmp::PartialEqSpecImpl for Fahrenheit {
    open spec fn obeys_eq_spec() -> bool {
        true
    }

    open spec fn eq_spec(&self, other: &Fahrenheit) -> bool {
        value_eq(self@, other@)
    }
}

impl PartialOrd for Fahrenheit {
    fn partial_cmp(&self, other: &Fahrenheit) -> (r: Option<Ordering>) {
        self.absolute.partial_cmp(&other.absolute)
    }
}

impl vstd::std_specs::cmp::PartialOrdSpecImpl for Fahrenheit {
    open spec fn obeys_partial_cmp_spec() -> bool {
        true
    }

    open spec fn partial_cmp_spec(&self, other: &Fahrenheit) -> Option<Ordering> {
        value_cmp(self@, other@)
    }
}

/// A magnitude that is `>= 0.0` is kept as it is: constructing a `Kelvin`
/// from it and reading the magnitude back gives the same bit pattern.
pub proof fn lemma_round_trip(bits: u64)
    requires
        is_non_negative(bits),
    ensures
        clamped(bits) == bits,
{
}

/// A magnitude below zero is clamped to absolute zero.
pub proof fn lemma_clamp_below_zero(bits: u64)
    requires
        is_negative(bits),
    ensures
        clamped(bits) == ZERO_BITS,
{
}

/// Whatever the magnitude, NaN and the largest negative ones included, what
/// construction keeps is `>= 0.0`.
pub proof fn lemma_never_below_zero(bits: u64)
    ensures
        is_non_negative(clamped(bits)),
{
}

/// Converting a `Celcius` to `Kelvin` directly, or through `Fahrenheit`, gives
/// the same temperature, and so does converting it to `Fahrenheit` and back.
pub proof fn lemma_cross_type_consistency(c: Celcius)
    requires
        is_non_negative(c@),
    ensures
        <Kelvin as FromSpec<Celcius>>::from_spec(c) == <Kelvin as FromSpec<Fahrenheit>>::from_spec(
            <Fahrenheit as FromSpec<Celcius>>::from_spec(c),
        ),
        <Kelvin as FromSpec<Celcius>>::from_spec(c)@ == c@,
        <Kelvin as FromSpec<Celcius>>::from_spec(c).eq_spec(
            &<Kelvin as FromSpec<Fahrenheit>>::from_spec(
                <Fahrenheit as FromSpec<Celcius>>::from_spec(c),
            ),
        ),
        <Celcius as FromSpec<Fahrenheit>>::from_spec(
            <Fahrenheit as FromSpec<Celcius>>::from_spec(c),
        ) == c,
        <Celcius as FromSpec<Fahrenheit>>::from_spec(
            <Fahrenheit as FromSpec<Celcius>>::from_spec(c),
        ).eq_spec(&c),
{
}

} // verus!
