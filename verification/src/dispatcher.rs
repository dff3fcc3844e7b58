//! Derivation of the argument list of one light-control invocation.
//!
//! The dispatcher is deliberately stateless: every call derives the full
//! argument list from the desired state and the settings alone, so repeated
//! events re-issue identical invocations and nothing is memoised.

use crate::decimal::{decimal_string, spec_decimal};
use crate::settings::MonitorSettings;
use vstd::prelude::*;

verus! {

/// The state the light is to be driven into.
#[derive(Clone, Copy, PartialEq, Eq, Structural, Debug)]
pub enum LightState {
    On,
    Off,
}

/// The trailing arguments that name the light and the address override,
/// present exactly when the settings carry them.
pub open spec fn spec_target_args(s: MonitorSettings) -> Seq<Seq<char>> {
    (match s.light {
        Option::Some(l) => seq!["--light"@, l@],
        Option::None => Seq::<Seq<char>>::empty(),
    }) + (match s.ip_address {
        Option::Some(a) => seq!["--ip-address"@, a@],
        Option::None => Seq::<Seq<char>>::empty(),
    })
}

/// The full argument list of one light-control invocation: the action
/// token; for `On`, the brightness and temperature taken from the
/// settings; then the optional target arguments.
pub open spec fn spec_light_args(st: LightState, s: MonitorSettings) -> Seq<Seq<char>> {
    (if st is On {
        seq![
            "on"@,
            "--brightness"@,
            spec_decimal(s.brightness as nat),
            "--temperature"@,
            spec_decimal(s.temperature as nat),
        ]
    } else {
        seq!["off"@]
    }) + spec_target_args(s)
}

/// Builds the argument list with which the external light-control program
/// is invoked for the desired state under the given settings.
pub fn build_light_command(st: LightState, s: &MonitorSettings) -> (args: Vec<String>)
    ensures
        args.deep_view() == spec_light_args(st, *s),
{
    let mut args: Vec<String> = Vec::new();
    match st {
        LightState::On => {
            args.push(String::from_str("on"));
            args.push(String::from_str("--brightness"));
            args.push(decimal_string(s.brightness as u64));
            args.push(String::from_str("--temperature"));
            args.push(decimal_string(s.temperature as u64));
        },
        LightState::Off => {
            args.push(String::from_str("off"));
        },
    }
    if let Option::Some(l) = &s.light {
        args.push(String::from_str("--light"));
        args.push(l.clone());
    }
    if let Option::Some(a) = &s.ip_address {
        args.push(String::from_str("--ip-address"));
        args.push(a.clone());
    }
    proof {
        assert(args.deep_view() =~~= spec_light_args(st, *s));
    }
    args
}

} // verus!
