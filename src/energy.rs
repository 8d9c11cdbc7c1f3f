//! The sixteen readings of the charger's energy sensor.
use vstd::prelude::*;

use crate::field::GoEStatusError;

verus! {

/// Voltages, currents, powers and power factors, as the sensor reports them.
#[derive(Debug, PartialEq, Eq, Structural, Clone, Copy)]
pub struct EnergySensorReading {
    pub voltage_l1: i32,
    pub voltage_l2: i32,
    pub voltage_l3: i32,
    pub voltage_n: i32,
    pub current_l1: i32,
    pub current_l2: i32,
    pub current_l3: i32,
    pub power_l1: i32,
    pub power_l2: i32,
    pub power_l3: i32,
    pub power_n: i32,
    pub power_total: i32,
    pub powerfactor_l1: i32,
    pub powerfactor_l2: i32,
    pub powerfactor_l3: i32,
    pub powerfactor_n: i32,
}

impl EnergySensorReading {
    /// The readings in the order of the wire array.
    pub open spec fn readings(self) -> Seq<i32> {
        seq![
            self.voltage_l1,
            self.voltage_l2,
            self.voltage_l3,
            self.voltage_n,
            self.current_l1,
            self.current_l2,
            self.current_l3,
            self.power_l1,
            self.power_l2,
            self.power_l3,
            self.power_n,
            self.power_total,
            self.powerfactor_l1,
            self.powerfactor_l2,
            self.powerfactor_l3,
            self.powerfactor_n,
        ]
    }

    /// The reading whose fields are the sixteen values of `s`, in wire order.
    pub open spec fn of_readings(s: Seq<i32>) -> EnergySensorReading {
        EnergySensorReading {
            voltage_l1: s[0],
            voltage_l2: s[1],
            voltage_l3: s[2],
            voltage_n: s[3],
            current_l1: s[4],
            current_l2: s[5],
            current_l3: s[6],
            power_l1: s[7],
            power_l2: s[8],
            power_l3: s[9],
            power_n: s[10],
            power_total: s[11],
            powerfactor_l1: s[12],
            powerfactor_l2: s[13],
            powerfactor_l3: s[14],
            powerfactor_n: s[15],
        }
    }

    /// Takes each reading from its position in the wire array; never fails.
    pub fn from_nrg_array(nrg: &[i32; 16]) -> (r: Result<EnergySensorReading, GoEStatusError>)
        ensures
            r is Ok,
            r->Ok_0 == EnergySensorReading::of_readings(nrg@),
    {
        let reading = EnergySensorReading {
            voltage_l1: nrg[0],
            voltage_l2: nrg[1],
            voltage_l3: nrg[2],
            voltage_n: nrg[3],
            current_l1: nrg[4],
            current_l2: nrg[5],
            current_l3: nrg[6],
            power_l1: nrg[7],
            power_l2: nrg[8],
            power_l3: nrg[9],
            power_n: nrg[10],
            power_total: nrg[11],
            powerfactor_l1: nrg[12],
            powerfactor_l2: nrg[13],
            powerfactor_l3: nrg[14],
            powerfactor_n: nrg[15],
        };
        Ok(reading)
    }
}

/// Each of the sixteen positions of the wire array lands in a field of its own: the
/// readings of the decoded value, in wire order, are the array again.
pub proof fn lemma_nrg_array_round_trip(nrg: [i32; 16])
    ensures
        EnergySensorReading::of_readings(nrg@).readings() == nrg@,
{
    assert(EnergySensorReading::of_readings(nrg@).readings() =~= nrg@);
}

/// Two wire arrays that decode to the same reading are the same array.
pub proof fn lemma_nrg_array_injective(a: [i32; 16], b: [i32; 16])
    requires
        EnergySensorReading::of_readings(a@) == EnergySensorReading::of_readings(b@),
    ensures
        a@ == b@,
{
    lemma_nrg_array_round_trip(a);
    lemma_nrg_array_round_trip(b);
}

} // verus!
