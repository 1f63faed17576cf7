use librarian::pedals::cxm1978::{
    Cxm1978Parameter, Cxm1978State, Jump, ReverbType, CC_BASS, CC_BYPASS, CC_CLOCK, CC_EXPRESSION, CC_JUMP, CC_MIX,
    CC_PRE_DLY, CC_REVERB_TYPE,
};

#[test]
fn test_reverb_type_cc_conversion() {
    assert_eq!(ReverbType::from_cc_value(1), ReverbType::Room);
    assert_eq!(ReverbType::from_cc_value(2), ReverbType::Plate);
    assert_eq!(ReverbType::from_cc_value(3), ReverbType::Hall);
    assert_eq!(ReverbType::Room.to_cc_value(), 1);
    assert_eq!(ReverbType::Plate.to_cc_value(), 2);
    assert_eq!(ReverbType::Hall.to_cc_value(), 3);
}

#[test]
fn mapper_test_jump_cc_conversion() {
    assert_eq!(Jump::from_cc_value(1), Jump::Off);
    assert_eq!(Jump::from_cc_value(2), Jump::Zero);
    assert_eq!(Jump::from_cc_value(3), Jump::Five);
}

#[test]
fn cxm1978_mapper_test_state_to_cc_map() {
    let state = Cxm1978State::default();
    let cc_map = state.to_cc_map();

    assert_eq!(cc_map.get(&CC_BASS), Some(&64));
    assert_eq!(cc_map.get(&CC_MIX), Some(&64));
    assert_eq!(cc_map.get(&CC_PRE_DLY), Some(&0));
    assert_eq!(cc_map.get(&CC_REVERB_TYPE), Some(&1)); // ReverbType::Room = 1
    assert_eq!(cc_map.get(&CC_CLOCK), Some(&2)); // Clock::Standard = 2
    // Expression and Bypass are excluded from recall map
    assert!(!cc_map.contains_key(&CC_EXPRESSION));
    assert!(!cc_map.contains_key(&CC_BYPASS));
}

#[test]
fn cxm1978_mapper_test_parameter_to_cc_message() {
    let param = Cxm1978Parameter::Mix(100);
    assert_eq!(param.to_cc_message(), Some((CC_MIX, 100)));

    let param = Cxm1978Parameter::ReverbType(ReverbType::Hall);
    assert_eq!(param.to_cc_message(), Some((CC_REVERB_TYPE, 3)));

    let param = Cxm1978Parameter::Bypass(false);
    assert_eq!(param.to_cc_message(), Some((CC_BYPASS, 127)));
}
