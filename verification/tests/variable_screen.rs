use shellpad::action::AppAction;
use shellpad::models::{CommandSet, Variable};
use shellpad::ui::keys::{KeyCode, KeyEvent};
use shellpad::ui::text_input::TextInput;
use shellpad::ui::variable_screen::{VariableOverlay, VariableScreenState};

#[test]
fn test_tab_advances_focus() {
    let mut state = VariableScreenState::new();
    let set = CommandSet::new("test".to_string(), uuid::Uuid::new_v4().as_u128());
    state.activate(&set, 0, 0);
    let _ = state.handle_key(KeyEvent::plain(KeyCode::Tab));
    assert_eq!(state.overlay.as_ref().unwrap().focus, 0);
}

#[test]
fn test_enter_with_variables_returns_confirm() {
    let mut state = VariableScreenState::new();
    state.overlay = Some(VariableOverlay {
        inputs: vec![TextInput::new("val".to_string())],
        names: vec!["x".to_string()],
        focus: 0,
        gi: 0,
        si: 0,
    });
    let action = state.handle_key(KeyEvent::plain(KeyCode::Enter));
    assert!(matches!(action, AppAction::ConfirmVariables));
}

#[test]
fn test_esc_returns_cancel_variables() {
    let mut state = VariableScreenState::new();
    state.overlay = Some(VariableOverlay { inputs: vec![], names: vec![], focus: 0, gi: 0, si: 0 });
    let action = state.handle_key(KeyEvent::plain(KeyCode::Esc));
    assert!(matches!(action, AppAction::CancelVariables));
}

#[test]
fn activate_prefills_defaults_and_focus_cycles() {
    let mut set = CommandSet::new("test".to_string(), uuid::Uuid::new_v4().as_u128());
    set.variables.push(Variable { name: "host".to_string(), default_value: "localhost".to_string() });
    set.variables.push(Variable { name: "port".to_string(), default_value: "22".to_string() });
    let mut state = VariableScreenState::new();
    state.activate(&set, 3, 4);
    {
        let o = state.overlay.as_ref().unwrap();
        assert_eq!((o.gi, o.si, o.focus), (3, 4, 0));
        assert_eq!(o.names, vec!["host".to_string(), "port".to_string()]);
        assert_eq!(o.inputs[0].content, "localhost");
        assert_eq!(o.inputs[0].cursor, 9);
    }
    let _ = state.handle_key(KeyEvent::plain(KeyCode::Down));
    assert_eq!(state.overlay.as_ref().unwrap().focus, 1);
    let _ = state.handle_key(KeyEvent::plain(KeyCode::Tab));
    assert_eq!(state.overlay.as_ref().unwrap().focus, 0);
    let _ = state.handle_key(KeyEvent::plain(KeyCode::Up));
    assert_eq!(state.overlay.as_ref().unwrap().focus, 1);
    let _ = state.handle_key(KeyEvent::plain(KeyCode::Char('0')));
    assert_eq!(state.overlay.as_ref().unwrap().inputs[1].content, "220");
}

#[test]
fn keys_without_a_prompt_do_nothing() {
    let mut state = VariableScreenState::new();
    assert!(matches!(state.handle_key(KeyEvent::plain(KeyCode::Enter)), AppAction::Nothing));
    assert!(state.overlay.is_none());
}
