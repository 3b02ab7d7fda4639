//! Denominations of the MOB currency, each a fixed power-of-ten multiple of
//! the smallest unit.

use vstd::prelude::*;

verus! {

/// One trillionth of a MOB, the smallest unit.
pub struct PicoMob(u64);

/// One billionth of a MOB.
pub struct NanoMob(PicoMob);

/// One millionth of a MOB.
pub struct MicroMob(PicoMob);

/// One thousandth of a MOB.
pub struct MilliMob(PicoMob);

/// One MOB.
pub struct Mob(PicoMob);

/// One thousand MOB.
pub struct KiloMob(PicoMob);

/// One million MOB.
pub struct MegaMob(PicoMob);

/// One billion MOB.
pub struct GigaMob(PicoMob);

} // verus!
