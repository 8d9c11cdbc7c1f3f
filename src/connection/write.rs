//! The control writes: each sets one key of the charger to one value.
use vstd::prelude::*;
use vstd::string::*;

use crate::field::{access_state_code, access_state_of, AccessState, DecodeFailure};
use crate::text::{decimal_text, u32_to_decimal};

verus! {

/// One key of the charger and the text it is set to.
pub struct KeyWrite {
    pub key: String,
    pub value: String,
}

impl KeyWrite {
    /// Sets the charging current limit: key `amp`, the limit in decimal.
    pub fn ampere(ampere: u32) -> (r: KeyWrite)
        ensures
            r.key@ == "amp"@,
            r.value@ == decimal_text(ampere as nat),
    {
        KeyWrite { key: String::from_str("amp"), value: u32_to_decimal(ampere) }
    }

    /// Sets who may charge: key `ast`, the state's wire code.
    pub fn access_state(access_state: AccessState) -> (r: KeyWrite)
        ensures
            r.key@ == "ast"@,
            r.value@ == seq![access_state_code(access_state)],
    {
        let value = match access_state {
            AccessState::Open => "0",
            AccessState::RFID => "1",
            AccessState::ElectricityPrices => "2",
        };
        proof {
            reveal_strlit("0");
            reveal_strlit("1");
            reveal_strlit("2");
        }
        KeyWrite { key: String::from_str("ast"), value: String::from_str(value) }
    }

    /// Allows or forbids charging: key `alw`, `1` or `0`.
    pub fn allow_charging(allow: bool) -> (r: KeyWrite)
        ensures
            r.key@ == "alw"@,
            r.value@ == (if allow {
                seq!['1']
            } else {
                seq!['0']
            }),
    {
        let value = if allow {
            "1"
        } else {
            "0"
        };
        proof {
            reveal_strlit("0");
            reveal_strlit("1");
        }
        KeyWrite { key: String::from_str("alw"), value: String::from_str(value) }
    }
}

/// The value written for an access state is the code that the status document decodes
/// back to that state.
pub proof fn lemma_access_state_round_trip(access_state: AccessState)
    ensures
        access_state_of(seq![access_state_code(access_state)]) == Ok::<AccessState, DecodeFailure>(access_state),
{
    let s = seq![access_state_code(access_state)];
    assert(s[0] == access_state_code(access_state));
    assert(seq!['0'][0] == '0' && seq!['1'][0] == '1');
}

} // verus!
