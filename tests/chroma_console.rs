use librarian::pedals::chroma_console::{
    CharacterModule, ChromaConsoleParameter, ChromaConsoleState, MovementModule, CC_CHARACTER_MODULE, CC_MIX,
    CC_OUTPUT_LEVEL, CC_TILT,
};

#[test]
fn test_character_module_cc_conversion() {
    assert_eq!(CharacterModule::from_cc_value(10), CharacterModule::Drive);
    assert_eq!(CharacterModule::from_cc_value(32), CharacterModule::Sweeten);
    assert_eq!(CharacterModule::from_cc_value(54), CharacterModule::Fuzz);
    assert_eq!(CharacterModule::from_cc_value(120), CharacterModule::Off);
}

#[test]
fn test_movement_module_cc_conversion() {
    assert_eq!(MovementModule::from_cc_value(10), MovementModule::Doubler);
    assert_eq!(MovementModule::from_cc_value(32), MovementModule::Vibrato);
    assert_eq!(MovementModule::from_cc_value(76), MovementModule::Tremolo);
}

#[test]
fn mapper_test_state_to_cc_map() {
    let state = ChromaConsoleState::default();
    let cc_map = state.to_cc_map();

    assert_eq!(cc_map.get(&CC_TILT), Some(&64));
    assert_eq!(cc_map.get(&CC_MIX), Some(&64));
    assert_eq!(cc_map.get(&CC_OUTPUT_LEVEL), Some(&100));
}

#[test]
fn mapper_test_parameter_to_cc_message() {
    let param = ChromaConsoleParameter::Tilt(100);
    assert_eq!(param.to_cc_message(), Some((CC_TILT, 100)));

    let param = ChromaConsoleParameter::CharacterModule(CharacterModule::Fuzz);
    assert_eq!(param.to_cc_message(), Some((CC_CHARACTER_MODULE, 54)));
}
