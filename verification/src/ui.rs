//! Toggles and buttons: named switches, what a press does to them, and what
//! the scene's light does when its switch flips.

use std::collections::HashMap;
use vstd::prelude::*;

verus! {

broadcast use vstd::std_specs::hash::group_hash_axioms;

/// Names a switch.
#[derive(Clone, Copy, Debug, PartialEq, Eq, Hash, Structural)]
pub enum ToggleId {
    /// Whether the light follows the camera.
    LightAttachment,
    /// Whether the keyboard steers the camera; off, the pointer does.
    ControlMode,
}

impl ToggleId {
    /// The number under which a switch is stored.
    pub open spec fn key_of(self) -> u64 {
        match self {
            ToggleId::LightAttachment => 0,
            ToggleId::ControlMode => 1,
        }
    }

    /// The text on the button of a switch in a given state.
    pub open spec fn label_of(self, state: bool) -> Seq<char> {
        match (self, state) {
            (ToggleId::LightAttachment, true) => "Light: Attached"@,
            (ToggleId::LightAttachment, false) => "Light: Detached"@,
            (ToggleId::ControlMode, true) => "Controls: Keyboard"@,
            (ToggleId::ControlMode, false) => "Controls: Pointer"@,
        }
    }

    /// The number under which a switch is stored.
    pub fn key(self) -> (key: u64)
        ensures
            key == self.key_of(),
    {
        match self {
            ToggleId::LightAttachment => 0,
            ToggleId::ControlMode => 1,
        }
    }

    /// The text on the button of a switch in a given state.
    pub fn label(self, state: bool) -> (text: &'static str)
        ensures
            text@ == self.label_of(state),
    {
        match (self, state) {
            (ToggleId::LightAttachment, true) => "Light: Attached",
            (ToggleId::LightAttachment, false) => "Light: Detached",
            (ToggleId::ControlMode, true) => "Controls: Keyboard",
            (ToggleId::ControlMode, false) => "Controls: Pointer",
        }
    }
}

/// The state of a switch in a table: off where the table does not know it.
pub open spec fn state_of(states: Map<ToggleId, bool>, id: ToggleId) -> bool {
    if states.contains_key(id) {
        states[id]
    } else {
        false
    }
}

/// The table after a switch was made known with its first state.
pub open spec fn registered(states: Map<ToggleId, bool>, id: ToggleId, initial: bool) -> Map<
    ToggleId,
    bool,
> {
    if states.contains_key(id) {
        states
    } else {
        states.insert(id, initial)
    }
}

/// The state of every switch that was registered.
pub struct ToggleStates {
    states: HashMap<u64, bool>,
}

impl View for ToggleStates {
    type V = Map<ToggleId, bool>;

    closed spec fn view(&self) -> Map<ToggleId, bool> {
        Map::new(
            |id: ToggleId| self.states@.contains_key(id.key_of()),
            |id: ToggleId| self.states@[id.key_of()],
        )
    }
}

impl ToggleStates {
    /// A table that knows no switch.
    pub fn new() -> (table: ToggleStates)
        ensures
            table@ == Map::<ToggleId, bool>::empty(),
    {
        let table = ToggleStates { states: HashMap::new() };
        assert(table@ =~= Map::<ToggleId, bool>::empty());
        table
    }

    /// Makes a switch known with its first state. One that is known already
    /// keeps the state it has.
    pub fn register(&mut self, id: ToggleId, initial_state: bool)
        ensures
            final(self)@ == registered(old(self)@, id, initial_state),
    {
        if !self.states.contains_key(&id.key()) {
            self.states.insert(id.key(), initial_state);
            assert(self@ =~= old(self)@.insert(id, initial_state));
        }
    }

    /// The state of a switch; off if it was never registered.
    pub fn get(&self, id: ToggleId) -> (state: bool)
        ensures
            state == state_of(self@, id),
    {
        match self.states.get(&id.key()) {
            Some(state) => *state,
            None => false,
        }
    }

    /// Flips a switch and returns its new state.
    pub fn toggle(&mut self, id: ToggleId) -> (new_state: bool)
        ensures
            new_state == !state_of(old(self)@, id),
            final(self)@ == old(self)@.insert(id, new_state),
    {
        let new_state = !self.get(id);
        self.states.insert(id.key(), new_state);
        assert(self@ =~= old(self)@.insert(id, new_state));
        new_state
    }
}

/// Tells that a switch has flipped, and to which state.
#[derive(Clone, Copy, Debug, PartialEq, Eq, Structural)]
pub struct ToggleEvent {
    pub id: ToggleId,
    pub state: bool,
}

/// How the pointer stands to a button.
#[derive(Clone, Copy, Debug, PartialEq, Eq, Structural)]
pub enum Interaction {
    Pressed,
    Hovered,
    Idle,
}

/// The grey of a button's background, in hundredths of full intensity.
pub open spec fn background_of(interaction: Interaction) -> u8 {
    match interaction {
        Interaction::Pressed => 25,
        Interaction::Hovered => 20,
        Interaction::Idle => 15,
    }
}

/// Picks the background of a button.
pub fn button_background(interaction: Interaction) -> (grey: u8)
    ensures
        grey == background_of(interaction),
{
    match interaction {
        Interaction::Pressed => 25,
        Interaction::Hovered => 20,
        Interaction::Idle => 15,
    }
}

/// What a change of interaction does to a toggle button.
#[derive(Clone, Copy, Debug, PartialEq, Eq)]
pub struct ButtonUpdate {
    /// The new background grey.
    pub background: u8,
    /// The event to emit, if the switch flipped.
    pub event: Option<ToggleEvent>,
    /// The new text for every label of the switch, if the switch flipped.
    pub label: Option<&'static str>,
}

/// Handles a change of interaction on the button of switch `id`. A press
/// flips the switch, emits the event and renames the button; hovering and
/// leaving only change the background.
pub fn toggle_button(
    interaction: Interaction,
    id: ToggleId,
    toggle_states: &mut ToggleStates,
) -> (update: ButtonUpdate)
    ensures
        update.background == background_of(interaction),
        interaction == Interaction::Pressed ==> {
            let state = !state_of(old(toggle_states)@, id);
            &&& final(toggle_states)@ == old(toggle_states)@.insert(id, state)
            &&& update.event == Some(ToggleEvent { id, state })
            &&& update.label is Some
            &&& update.label->0@ == id.label_of(state)
        },
        interaction != Interaction::Pressed ==> {
            &&& final(toggle_states)@ == old(toggle_states)@
            &&& update.event is None
            &&& update.label is None
        },
{
    let background = button_background(interaction);
    match interaction {
        Interaction::Pressed => {
            let state = toggle_states.toggle(id);
            ButtonUpdate {
                background,
                event: Some(ToggleEvent { id, state }),
                label: Some(id.label(state)),
            }
        },
        _ => ButtonUpdate { background, event: None, label: None },
    }
}

/// What is done to the light when its switch flips.
#[derive(Clone, Copy, Debug, PartialEq, Eq, Structural)]
pub enum LightAction {
    /// Hang the light on the camera, with no offset of its own.
    Attach,
    /// Take the light off the camera and leave it where it stands in the world.
    DetachInPlace,
    /// Take the light off the camera; its place in the world is not known.
    Detach,
    /// Leave the light as it is: the event was for another switch.
    Keep,
}

/// The action that one event asks for.
pub open spec fn action_for(event: ToggleEvent, light_placed: bool) -> LightAction {
    match event.id {
        ToggleId::LightAttachment => if event.state {
            LightAction::Attach
        } else if light_placed {
            LightAction::DetachInPlace
        } else {
            LightAction::Detach
        },
        ToggleId::ControlMode => LightAction::Keep,
    }
}

/// The actions that the events of a tick ask for: one per event, in order,
/// and none at all while camera or light is missing.
pub open spec fn actions_for(
    events: Seq<ToggleEvent>,
    camera_known: bool,
    light_known: bool,
    light_placed: bool,
) -> Seq<LightAction> {
    if camera_known && light_known {
        events.map_values(|event: ToggleEvent| action_for(event, light_placed))
    } else {
        Seq::empty()
    }
}

/// Turns the toggle events of a tick into what is done to the light.
/// `light_placed` says whether the light's place in the world is known.
pub fn handle_toggle_events(
    toggle_events: &Vec<ToggleEvent>,
    camera_known: bool,
    light_known: bool,
    light_placed: bool,
) -> (actions: Vec<LightAction>)
    ensures
        actions@ == actions_for(toggle_events@, camera_known, light_known, light_placed),
{
    let mut actions: Vec<LightAction> = Vec::new();
    if !camera_known || !light_known {
        return actions;
    }
    let mut i: usize = 0;
    while i < toggle_events.len()
        invariant
            i <= toggle_events.len(),
            actions@ == toggle_events@.take(i as int).map_values(
                |event: ToggleEvent| action_for(event, light_placed),
            ),
        decreases toggle_events.len() - i,
    {
        let event = toggle_events[i];
        let action = match event.id {
            ToggleId::LightAttachment => if event.state {
                LightAction::Attach
            } else if light_placed {
                LightAction::DetachInPlace
            } else {
                LightAction::Detach
            },
            ToggleId::ControlMode => LightAction::Keep,
        };
        actions.push(action);
        assert(actions@ =~= toggle_events@.take(i + 1).map_values(
            |event: ToggleEvent| action_for(event, light_placed),
        ));
        i += 1;
    }
    assert(toggle_events@.take(toggle_events.len() as int) =~= toggle_events@);
    actions
}

/// A button of the panel.
#[derive(Clone, Copy, Debug, PartialEq, Eq)]
pub enum PanelButton {
    /// The button of a switch, with the text for the state the switch is in.
    Toggle { id: ToggleId, label: &'static str },
    /// The button that resets the camera.
    ResetCamera { label: &'static str },
}

/// The button of a switch as the table has it.
pub open spec fn toggle_entry(states: Map<ToggleId, bool>, id: ToggleId, button: PanelButton) -> bool {
    button matches PanelButton::Toggle { id: shown, label } && shown == id && label@
        == id.label_of(state_of(states, id))
}

/// Lists the buttons of the panel from top to bottom: the two switches, each
/// named after its state, then the reset button.
pub fn setup_buttons(toggle_states: &ToggleStates) -> (buttons: Vec<PanelButton>)
    ensures
        buttons.len() == 3,
        toggle_entry(toggle_states@, ToggleId::LightAttachment, buttons[0]),
        toggle_entry(toggle_states@, ToggleId::ControlMode, buttons[1]),
        buttons[2] matches PanelButton::ResetCamera { label } && label@ == "Reset Camera"@,
{
    let light = ToggleId::LightAttachment;
    let controls = ToggleId::ControlMode;
    let mut buttons: Vec<PanelButton> = Vec::new();
    buttons.push(PanelButton::Toggle { id: light, label: light.label(toggle_states.get(light)) });
    buttons.push(
        PanelButton::Toggle { id: controls, label: controls.label(toggle_states.get(controls)) },
    );
    buttons.push(PanelButton::ResetCamera { label: "Reset Camera" });
    buttons
}

} // verus!
