//! Edit mode state machine.
//!
//! Tracks which single edit target, if any, is active, and its current
//! selection mode. Only one target can be active at a time: entering a
//! new target supersedes any other. Targets are identified by an `i64`
//! instance id handed in by the host.

use vstd::prelude::*;
use crate::modes::SelectionMode;

verus! {

/// The current state of edit mode.
#[derive(Debug, Clone, Copy, PartialEq, Eq, Structural)]
pub enum EditModeState {
    /// No node is being edited.
    Inactive,
    /// A specific node is being edited.
    Active {
        /// Instance id of the node being edited.
        node_instance_id: i64,
        /// Current selection mode (Vertex, Edge, Face).
        selection_mode: SelectionMode,
    },
}

impl EditModeState {
    /// Returns true if edit mode is active (any node being edited).
    pub fn is_active(&self) -> (r: bool)
        ensures
            r == (self is Active),
    {
        matches!(self, EditModeState::Active { .. })
    }

    /// Returns the instance id of the node being edited, if any.
    pub fn active_node_id(&self) -> (r: Option<i64>)
        ensures
            r == match *self {
                EditModeState::Active { node_instance_id, .. } => Some(node_instance_id),
                EditModeState::Inactive => None::<i64>,
            },
    {
        match self {
            EditModeState::Active { node_instance_id, .. } => Some(*node_instance_id),
            EditModeState::Inactive => None,
        }
    }

    /// Returns the current selection mode, if in edit mode.
    pub fn selection_mode(&self) -> (r: Option<SelectionMode>)
        ensures
            r == match *self {
                EditModeState::Active { selection_mode, .. } => Some(selection_mode),
                EditModeState::Inactive => None::<SelectionMode>,
            },
    {
        match self {
            EditModeState::Active { selection_mode, .. } => Some(*selection_mode),
            EditModeState::Inactive => None,
        }
    }

    /// Enter edit mode on a specific node. The selection mode always
    /// resets to Vertex on entry, even when switching from another
    /// active target.
    pub fn enter_edit_mode(&mut self, node_id: i64)
        ensures
            *final(self) == (EditModeState::Active {
                node_instance_id: node_id,
                selection_mode: SelectionMode::Vertex,
            }),
    {
        *self = EditModeState::Active {
            node_instance_id: node_id,
            selection_mode: SelectionMode::Vertex,
        };
    }

    /// Exit edit mode, returning to Inactive (a no-op when already
    /// Inactive).
    pub fn exit_edit_mode(&mut self)
        ensures
            *final(self) == EditModeState::Inactive,
    {
        *self = EditModeState::Inactive;
    }

    /// Toggle edit mode for a given node:
    /// - if inactive, enters edit mode on the node;
    /// - if active on the same node, exits edit mode;
    /// - if active on a different node, switches to the new node.
    ///
    /// Returns the state before the transition, so the caller can notify
    /// whichever target lost active status; the state machine itself
    /// performs no cross-target notification.
    pub fn toggle_for_node(&mut self, node_id: i64) -> (previous: EditModeState)
        ensures
            previous == *old(self),
            *final(self) == match *old(self) {
                EditModeState::Inactive => EditModeState::Active {
                    node_instance_id: node_id,
                    selection_mode: SelectionMode::Vertex,
                },
                EditModeState::Active { node_instance_id, .. } => {
                    if node_instance_id == node_id {
                        EditModeState::Inactive
                    } else {
                        EditModeState::Active {
                            node_instance_id: node_id,
                            selection_mode: SelectionMode::Vertex,
                        }
                    }
                },
            },
    {
        let previous = *self;
        match previous {
            EditModeState::Inactive => {
                self.enter_edit_mode(node_id);
            },
            EditModeState::Active { node_instance_id, .. } => {
                if node_instance_id == node_id {
                    self.exit_edit_mode();
                } else {
                    self.enter_edit_mode(node_id);
                }
            },
        }
        previous
    }
}

impl Default for EditModeState {
    fn default() -> (r: EditModeState)
        ensures
            r == EditModeState::Inactive,
    {
        EditModeState::Inactive
    }
}

} // verus!
