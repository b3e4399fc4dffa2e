use vmm_core::sys::structs::{ClockData, StateValue, Translation, KVM_CLOCK_TSC_STABLE};
use vmm_core::vcpu::state::MP_STATE_UNKNOWN;
use vmm_core::vcpu::State;

#[test]
fn states_have_the_kernels_numbers() {
    assert_eq!(State::Runnable.into(), 0);
    assert_eq!(State::Uninitialized.into(), 1);
    assert_eq!(State::InitReceived.into(), 2);
    assert_eq!(State::Halted.into(), 3);
    assert_eq!(State::SipiReceived.into(), 4);
    assert_eq!(State::Stopped.into(), 5);
    assert_eq!(State::CheckStop.into(), 6);
    assert_eq!(State::Operating.into(), 7);
    assert_eq!(State::Load.into(), 8);
    assert_eq!(State::Unknown.into(), 0xffff_ffff);
    assert_eq!(MP_STATE_UNKNOWN, u32::MAX);
}

#[test]
fn numbers_name_states() {
    assert_eq!(State::from(0), State::Runnable);
    assert_eq!(State::from(3), State::Halted);
    assert_eq!(State::from(8), State::Load);
    assert_eq!(State::from(9), State::Unknown);
    assert_eq!(State::from(u32::MAX), State::Unknown);
}

#[test]
fn every_state_survives_the_round_trip() {
    let all = [
        State::Unknown,
        State::Runnable,
        State::Uninitialized,
        State::InitReceived,
        State::Halted,
        State::SipiReceived,
        State::Stopped,
        State::CheckStop,
        State::Operating,
        State::Load,
    ];
    for state in all {
        assert_eq!(State::from(state.into()), state);
    }
}

#[test]
fn state_values_count_from_zero() {
    assert_eq!(StateValue::Runnable.value(), 0);
    assert_eq!(StateValue::StateHalted.value(), 3);
    assert_eq!(StateValue::Load.value(), 8);
}

#[test]
fn clock_requests_carry_the_stable_flag_only_when_asked() {
    let stable = ClockData::query(true);
    assert_eq!(stable.clock, 0);
    assert_eq!(stable.flags, KVM_CLOCK_TSC_STABLE);
    assert_eq!(stable._pad, [0u32; 9]);
    let any = ClockData::query(false);
    assert_eq!(any.flags, 0);
    let set = ClockData::at(0x1234_5678_9abc);
    assert_eq!(set.clock, 0x1234_5678_9abc);
    assert_eq!(set.flags, 0);
}

#[test]
fn translations_are_asked_and_answered() {
    let request = Translation::query(0xffff_8000_0000_1000);
    assert_eq!(request.linear_address, 0xffff_8000_0000_1000);
    assert_eq!(request.physical_address, 0);
    assert_eq!((request.valid, request.writable, request.usermode), (0, 0, 0));
    assert_eq!(request.answer(), (0, false, false, false));
    let answered = Translation {
        linear_address: 0x1000,
        physical_address: 0x7000,
        valid: 1,
        writable: 0,
        usermode: 0xff,
        _pad: [0; 5],
    };
    assert_eq!(answered.answer(), (0x7000, true, false, true));
}
