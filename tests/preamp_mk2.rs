use librarian::pedals::preamp_mk2::{
    Jump, MidsPosition, PreampMk2Parameter, PreampMk2State, CC_BYPASS, CC_GAIN, CC_JUMP, CC_VOLUME,
};

#[test]
fn preamp_mk2_mapper_test_jump_cc_conversion() {
    assert_eq!(Jump::from_cc_value(1), Jump::Off);
    assert_eq!(Jump::from_cc_value(2), Jump::Zero);
    assert_eq!(Jump::from_cc_value(3), Jump::Five);
    assert_eq!(Jump::Off.to_cc_value(), 1);
    assert_eq!(Jump::Zero.to_cc_value(), 2);
    assert_eq!(Jump::Five.to_cc_value(), 3);
}

#[test]
fn test_mids_position_cc_conversion() {
    assert_eq!(MidsPosition::from_cc_value(1), MidsPosition::Off);
    assert_eq!(MidsPosition::from_cc_value(2), MidsPosition::Pre);
    assert_eq!(MidsPosition::from_cc_value(3), MidsPosition::Post);
}

#[test]
fn preamp_mk2_mapper_test_state_to_cc_map() {
    let state = PreampMk2State::default();
    let cc_map = state.to_cc_map();

    assert_eq!(cc_map.get(&CC_VOLUME), Some(&64));
    assert_eq!(cc_map.get(&CC_GAIN), Some(&64));
    assert_eq!(cc_map.get(&CC_JUMP), Some(&1)); // Jump::Off = 1
}

#[test]
fn preamp_mk2_mapper_test_parameter_to_cc_message() {
    let param = PreampMk2Parameter::Volume(100);
    assert_eq!(param.to_cc_message(), Some((CC_VOLUME, 100)));

    let param = PreampMk2Parameter::Jump(Jump::Five);
    assert_eq!(param.to_cc_message(), Some((CC_JUMP, 3)));

    let param = PreampMk2Parameter::Bypass(false);
    assert_eq!(param.to_cc_message(), Some((CC_BYPASS, 127)));
}
