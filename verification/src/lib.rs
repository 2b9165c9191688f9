//! Capability contracts for reading time-like and count-like peripherals
//! (clocks/timers, pulse counters) independently of any chip or register
//! layout.
//!
//! Each contract asks an implementer for a raw register read plus a declared
//! interpretation of the raw sample, and in return provides a derived read
//! operation that yields a semantically typed measurement. The derived
//! operation is verified once, here, against the implementer's declared
//! interpretation: it scales a successful raw sample and passes a failure
//! through unchanged.

use vstd::prelude::*;

verus! {

/// Marker capability: a type granted this capability is an acceptable raw
/// representation of a duration value. Downstream code can constrain generic
/// items to "any raw type usable as a duration" without depending on a
/// numeric-units library. The two standard unsigned register widths are
/// granted the capability here.
pub trait Duration {}

impl Duration for u32 {}

impl Duration for u64 {}

/// Capability contract for reading a clock peripheral. The intended use is
/// that a hardware-abstraction layer implements this trait on one of its
/// types, supplying the raw register read and the tick-to-measurement
/// scaling; the type then carries with it the means to read the clock's tick
/// counter and to communicate the duration the count represents.
pub trait TimeCount: Sized {
    /// The data type held within the peripheral register being read,
    /// typically an unsigned register width or a wrapper around one. It must
    /// be trivially copyable: reading it transfers no ownership.
    type RawData: Copy;

    /// The length of time that the tick count measures. A peripheral clocked
    /// at 80 MHz might choose a duration type denominated in eighty-millionths
    /// of a second, or a type that expresses the reading as a frequency.
    type TickMeasure;

    /// Whatever failure the underlying register read can signal (bus fault,
    /// not ready, disconnected peripheral). Opaque to this contract.
    type Error;

    /// The raw sample, or failure, that the register read yields for this
    /// handle's current state. This is the implementer's model of the
    /// peripheral, and the value [`TimeCount::try_now_raw`] is bound to.
    spec fn raw_read(&self) -> Result<Self::RawData, Self::Error>;

    /// The measurement that a raw tick count denotes under this peripheral's
    /// declared scale. [`TimeCount::raw_to_measure`] is bound to compute it.
    spec fn measure_of(raw: Self::RawData) -> Self::TickMeasure;

    /// The raw register read: a pure passthrough of the hardware value, with
    /// no interpretation and no scaling. The sole failure point of the
    /// contract; whatever the peripheral signals is returned as is.
    fn try_now_raw(&self) -> (r: Result<Self::RawData, Self::Error>)
        ensures
            r == self.raw_read(),
    ;

    /// The tick-to-measurement scaling: a pure conversion of a raw tick count
    /// into the time measurement it denotes.
    fn raw_to_measure(from: Self::RawData) -> (r: Self::TickMeasure)
        ensures
            r == Self::measure_of(from),
    ;

    /// Reads the clock. Performs the raw register read once; on success,
    /// scales the tick count into a measurement, and on failure returns the
    /// register read's error unchanged, with no retry and no translation.
    fn try_now(&self) -> (r: Result<Self::TickMeasure, Self::Error>)
        ensures
            self.raw_read() matches Ok(raw) ==> r == Ok::<Self::TickMeasure, Self::Error>(
                Self::measure_of(raw),
            ),
            self.raw_read() matches Err(e) ==> r == Err::<Self::TickMeasure, Self::Error>(e),
    {
        match self.try_now_raw() {
            Ok(raw) => Ok(Self::raw_to_measure(raw)),
            Err(e) => Err(e),
        }
    }
}

/// The reading that [`TimeCount::try_now`] is obliged to return: a successful
/// raw register read is scaled into a tick measurement, and a failed one has
/// its error passed through unchanged.
pub open spec fn time_reading<T: TimeCount>(t: &T) -> Result<T::TickMeasure, T::Error> {
    match t.raw_read() {
        Ok(raw) => Ok(T::measure_of(raw)),
        Err(e) => Err(e),
    }
}

/// A successful raw read scales: whenever the reading `r` meets the contract
/// of [`TimeCount::try_now`] and the register read of `t` yields a raw
/// sample, `r` is exactly that sample scaled by the peripheral's declared
/// measure, and is no error.
pub proof fn lemma_time_success_scales<T: TimeCount>(t: &T, r: Result<T::TickMeasure, T::Error>)
    requires
        r == time_reading(t),
        t.raw_read() is Ok,
    ensures
        r is Ok,
        r->Ok_0 == T::measure_of(t.raw_read()->Ok_0),
{
}

/// Error identity: whenever the reading `r` meets the contract of
/// [`TimeCount::try_now`] and the register read of `t` fails, `r` fails with
/// exactly the register read's error, neither wrapped nor translated.
pub proof fn lemma_time_error_identity<T: TimeCount>(t: &T, r: Result<T::TickMeasure, T::Error>)
    requires
        r == time_reading(t),
        t.raw_read() is Err,
    ensures
        r is Err,
        r->Err_0 == t.raw_read()->Err_0,
{
}

/// Capability contract for reading a peripheral that tracks a count, such as
/// a pulse counter. Structurally the counterpart of [`TimeCount`], but the
/// interpretation of the raw count is an arbitrary implementer-defined
/// conversion rather than a time scaling: count-to-measurement relationships
/// are domain-specific (an encoder's counts to an angle through a gear ratio)
/// and not reliably linear.
pub trait Counter: Sized {
    /// The data type held within the peripheral register being read,
    /// typically an integer, possibly wrapped. For a count that only ever
    /// increases from zero an unsigned type is the natural choice. It must be
    /// trivially copyable: reading it transfers no ownership.
    type RawData: Copy;

    /// The interpretation of the raw count. A rotary pulse encoder with one
    /// increment per milliradian might choose a milliradian wrapper around
    /// the raw type.
    type CountMeasure;

    /// Whatever failure the underlying register read can signal. Opaque to
    /// this contract.
    type Error;

    /// The raw sample, or failure, that the register read yields for this
    /// handle's current state. This is the implementer's model of the
    /// peripheral, and the value [`Counter::try_read_raw`] is bound to.
    spec fn raw_read(&self) -> Result<Self::RawData, Self::Error>;

    /// The measurement that a raw count denotes under this peripheral's
    /// declared conversion. [`Counter::raw_to_measure`] is bound to compute
    /// it.
    spec fn measure_of(raw: Self::RawData) -> Self::CountMeasure;

    /// The raw register read: a pure passthrough of the hardware value, with
    /// no interpretation. The sole failure point of the contract; whatever
    /// the peripheral signals is returned as is.
    fn try_read_raw(&self) -> (r: Result<Self::RawData, Self::Error>)
        ensures
            r == self.raw_read(),
    ;

    /// The count-to-measurement conversion: a pure, implementer-defined
    /// interpretation of a raw count.
    fn raw_to_measure(from: Self::RawData) -> (r: Self::CountMeasure)
        ensures
            r == Self::measure_of(from),
    ;

    /// Reads the counter. Performs the raw register read once; on success,
    /// converts the count into a measurement, and on failure returns the
    /// register read's error unchanged, with no retry and no translation.
    fn try_read(&self) -> (r: Result<Self::CountMeasure, Self::Error>)
        ensures
            self.raw_read() matches Ok(raw) ==> r == Ok::<Self::CountMeasure, Self::Error>(
                Self::measure_of(raw),
            ),
            self.raw_read() matches Err(e) ==> r == Err::<Self::CountMeasure, Self::Error>(e),
    {
        match self.try_read_raw() {
            Ok(raw) => Ok(Self::raw_to_measure(raw)),
            Err(e) => Err(e),
        }
    }
}

/// The reading that [`Counter::try_read`] is obliged to return: a successful
/// raw register read is converted into a count measurement, and a failed one
/// has its error passed through unchanged.
pub open spec fn count_reading<C: Counter>(c: &C) -> Result<C::CountMeasure, C::Error> {
    match c.raw_read() {
        Ok(raw) => Ok(C::measure_of(raw)),
        Err(e) => Err(e),
    }
}

/// A successful raw read converts: whenever the reading `r` meets the
/// contract of [`Counter::try_read`] and the register read of `c` yields a
/// raw count, `r` is exactly the implementer's declared conversion applied to
/// that count, and is no error.
pub proof fn lemma_count_success_converts<C: Counter>(c: &C, r: Result<C::CountMeasure, C::Error>)
    requires
        r == count_reading(c),
        c.raw_read() is Ok,
    ensures
        r is Ok,
        r->Ok_0 == C::measure_of(c.raw_read()->Ok_0),
{
}

/// Error identity: whenever the reading `r` meets the contract of
/// [`Counter::try_read`] and the register read of `c` fails, `r` fails with
/// exactly the register read's error, neither wrapped nor translated.
pub proof fn lemma_count_error_identity<C: Counter>(c: &C, r: Result<C::CountMeasure, C::Error>)
    requires
        r == count_reading(c),
        c.raw_read() is Err,
    ensures
        r is Err,
        r->Err_0 == c.raw_read()->Err_0,
{
}

} // verus!
