use blockot::edit_mode::EditModeState;
use blockot::modes::SelectionMode;

#[test]
fn test_default_is_inactive() {
    let state = EditModeState::default();
    assert_eq!(state, EditModeState::Inactive);
    assert!(!state.is_active());
    assert_eq!(state.active_node_id(), None);
    assert_eq!(state.selection_mode(), None);
}

#[test]
fn test_enter_edit_mode() {
    let mut state = EditModeState::default();
    state.enter_edit_mode(42);

    assert!(state.is_active());
    assert_eq!(state.active_node_id(), Some(42));
    assert_eq!(state.selection_mode(), Some(SelectionMode::Vertex));
}

#[test]
fn test_exit_edit_mode() {
    let mut state = EditModeState::default();
    state.enter_edit_mode(42);
    state.exit_edit_mode();

    assert!(!state.is_active());
    assert_eq!(state.active_node_id(), None);
}

#[test]
fn test_toggle_from_inactive_enters() {
    let mut state = EditModeState::default();
    let prev = state.toggle_for_node(42);

    assert_eq!(prev, EditModeState::Inactive);
    assert!(state.is_active());
    assert_eq!(state.active_node_id(), Some(42));
}

#[test]
fn test_toggle_same_node_exits() {
    let mut state = EditModeState::default();
    state.enter_edit_mode(42);
    let prev = state.toggle_for_node(42);

    assert!(prev.is_active());
    assert!(!state.is_active());
}

#[test]
fn test_toggle_different_node_switches() {
    let mut state = EditModeState::default();
    state.enter_edit_mode(42);
    let prev = state.toggle_for_node(99);

    // Previous was active on 42
    assert_eq!(prev.active_node_id(), Some(42));
    // Now active on 99
    assert!(state.is_active());
    assert_eq!(state.active_node_id(), Some(99));
    assert_eq!(state.selection_mode(), Some(SelectionMode::Vertex));
}

#[test]
fn test_enter_resets_selection_mode_to_vertex() {
    let mut state = EditModeState::Active {
        node_instance_id: 42,
        selection_mode: SelectionMode::Face,
    };
    // Switching to a new node should reset to Vertex mode
    state.enter_edit_mode(99);
    assert_eq!(state.selection_mode(), Some(SelectionMode::Vertex));
}

#[test]
fn test_toggle_returns_previous_state() {
    let mut state = EditModeState::default();

    // Toggle on: previous should be Inactive
    let prev = state.toggle_for_node(10);
    assert_eq!(prev, EditModeState::Inactive);

    // Toggle off: previous should be Active(10)
    let prev = state.toggle_for_node(10);
    assert_eq!(prev.active_node_id(), Some(10));

    // State is now Inactive
    assert!(!state.is_active());
}
