//! The readings of one measurement round.

use vstd::prelude::*;

verus! {

/// Voltage, current and power of one channel. `T` is the number type of the
/// readings.
#[derive(Debug, Default, PartialEq)]
pub struct ChMeas<T> {
    pub v: T,
    pub i: T,
    pub p: T,
}

/// The readings of the three channels.
#[derive(Debug, Default, PartialEq)]
pub struct Meas<T> {
    pub ch1: ChMeas<T>,
    pub ch2: ChMeas<T>,
    pub ch3: ChMeas<T>,
}

impl<T> ChMeas<T> {
    pub fn new(v: T, i: T, p: T) -> (meas: Self)
        ensures
            meas.v == v,
            meas.i == i,
            meas.p == p,
    {
        Self { v, i, p }
    }
}

impl<T> Meas<T> {
    /// Regroups the three "query all" results, each in channel order, by
    /// channel.
    pub fn from_readings(v: (T, T, T), i: (T, T, T), p: (T, T, T)) -> (meas: Self)
        ensures
            meas.ch1.v == v.0 && meas.ch1.i == i.0 && meas.ch1.p == p.0,
            meas.ch2.v == v.1 && meas.ch2.i == i.1 && meas.ch2.p == p.1,
            meas.ch3.v == v.2 && meas.ch3.i == i.2 && meas.ch3.p == p.2,
    {
        Meas {
            ch1: ChMeas::new(v.0, i.0, p.0),
            ch2: ChMeas::new(v.1, i.1, p.1),
            ch3: ChMeas::new(v.2, i.2, p.2),
        }
    }
}

} // verus!
