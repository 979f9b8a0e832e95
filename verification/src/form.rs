use vstd::prelude::*;
use crate::scenario::{PredictionSystem, Scenario};
use crate::text::{accepts, is_numeric_char, is_numeric_text};

verus! {

/// Whether keys move around the form or are typed into a field.
#[derive(Clone, Copy, PartialEq, Eq, Debug, Structural)]
pub enum InputMode {
    Normal,
    Editing,
}

/// The part of the form that keys act on.
#[derive(Clone, Copy, PartialEq, Eq, Debug, Structural)]
pub enum FocusedField {
    MyCityPoint,
    PlaneSeating,
    Scenario,
}

impl FocusedField {
    /// The field below, wrapping from the last to the first.
    pub open spec fn next(self) -> FocusedField {
        match self {
            FocusedField::MyCityPoint => FocusedField::PlaneSeating,
            FocusedField::PlaneSeating => FocusedField::Scenario,
            FocusedField::Scenario => FocusedField::MyCityPoint,
        }
    }

    /// The field above, wrapping from the first to the last.
    pub open spec fn prev(self) -> FocusedField {
        match self {
            FocusedField::MyCityPoint => FocusedField::Scenario,
            FocusedField::PlaneSeating => FocusedField::MyCityPoint,
            FocusedField::Scenario => FocusedField::PlaneSeating,
        }
    }
}

/// A key of the keyboard, as far as the form tells keys apart.
#[derive(Clone, Copy, PartialEq, Eq, Debug)]
pub enum Key {
    Char(char),
    Tab,
    BackTab,
    Up,
    Down,
    Left,
    Right,
    Enter,
    Esc,
    Backspace,
    Other,
}

/// What happened to a key.
#[derive(Clone, Copy, PartialEq, Eq, Debug)]
pub enum KeyKind {
    Press,
    Repeat,
    Release,
}

/// What the terminal reports: a key, or something the form has no use for.
#[derive(Clone, Copy, PartialEq, Eq, Debug)]
pub enum InputEvent {
    Key { code: Key, kind: KeyKind },
    Other,
}

/// What the caller does after an event was handled.
#[derive(Clone, Copy, PartialEq, Eq, Debug, Structural)]
pub enum Outcome {
    Continue,
    Quit,
}

/// How a field is drawn.
#[derive(Clone, Copy, PartialEq, Eq, Debug, Structural)]
pub enum Highlight {
    Editing,
    Focused,
    Plain,
}

/// The form as a mathematical value.
pub struct FormState {
    pub my_city_point: Seq<char>,
    pub plane_seating: Seq<char>,
    pub selected: int,
    pub input_mode: InputMode,
    pub focused_field: FocusedField,
}

/// `text` without its last character, and `text` itself where it is empty.
pub open spec fn erase_last(text: Seq<char>) -> Seq<char> {
    if text.len() > 0 {
        text.drop_last()
    } else {
        text
    }
}

/// `text` with `c` at its end where a numeric field takes `c`, else `text`.
pub open spec fn type_char(text: Seq<char>, c: char) -> Seq<char> {
    if is_numeric_char(c) {
        text.push(c)
    } else {
        text
    }
}

impl FormState {
    /// The empty form: nothing typed, the first scenario, the first field.
    pub open spec fn initial() -> FormState {
        FormState {
            my_city_point: Seq::empty(),
            plane_seating: Seq::empty(),
            selected: 0,
            input_mode: InputMode::Normal,
            focused_field: FocusedField::MyCityPoint,
        }
    }

    /// What holds of every form that keys can lead to: a scenario is
    /// selected, the two fields hold digits and points only, and the
    /// scenario selector is never being typed into.
    pub open spec fn valid(self) -> bool {
        &&& 0 <= self.selected < 6
        &&& is_numeric_text(self.my_city_point)
        &&& is_numeric_text(self.plane_seating)
        &&& self.input_mode is Editing ==> !(self.focused_field is Scenario)
    }

    /// The selected scenario.
    pub open spec fn scenario(self) -> Scenario {
        Scenario::all_spec()[self.selected]
    }

    /// The form with the next scenario selected, the first after the last.
    pub open spec fn select_next(self) -> FormState {
        FormState { selected: (self.selected + 1) % 6, ..self }
    }

    /// The form with the scenario before selected, the last before the first.
    pub open spec fn select_prev(self) -> FormState {
        FormState { selected: (self.selected + 5) % 6, ..self }
    }

    /// The form after a key was pressed while moving around.
    pub open spec fn on_normal_key(self, code: Key) -> FormState {
        match code {
            Key::Tab | Key::Down => FormState { focused_field: self.focused_field.next(), ..self },
            Key::BackTab | Key::Up => FormState { focused_field: self.focused_field.prev(), ..self },
            Key::Enter => if self.focused_field is Scenario {
                self.select_next()
            } else {
                FormState { input_mode: InputMode::Editing, ..self }
            },
            Key::Left => if self.focused_field is Scenario {
                self.select_prev()
            } else {
                self
            },
            Key::Right => if self.focused_field is Scenario {
                self.select_next()
            } else {
                self
            },
            _ => self,
        }
    }

    /// The form after a key was pressed while typing.
    pub open spec fn on_editing_key(self, code: Key) -> FormState {
        match code {
            Key::Enter | Key::Esc => FormState { input_mode: InputMode::Normal, ..self },
            Key::Char(c) => match self.focused_field {
                FocusedField::MyCityPoint => FormState {
                    my_city_point: type_char(self.my_city_point, c),
                    ..self
                },
                FocusedField::PlaneSeating => FormState {
                    plane_seating: type_char(self.plane_seating, c),
                    ..self
                },
                FocusedField::Scenario => self,
            },
            Key::Backspace => match self.focused_field {
                FocusedField::MyCityPoint => FormState {
                    my_city_point: erase_last(self.my_city_point),
                    ..self
                },
                FocusedField::PlaneSeating => FormState {
                    plane_seating: erase_last(self.plane_seating),
                    ..self
                },
                FocusedField::Scenario => self,
            },
            _ => self,
        }
    }

    /// The form after a key was pressed.
    pub open spec fn on_key(self, code: Key) -> FormState {
        match self.input_mode {
            InputMode::Normal => self.on_normal_key(code),
            InputMode::Editing => self.on_editing_key(code),
        }
    }

    /// The form after an event: only a key that was pressed changes it.
    pub open spec fn step(self, event: InputEvent) -> FormState {
        match event {
            InputEvent::Key { code, kind: KeyKind::Press } => self.on_key(code),
            _ => self,
        }
    }

    /// Whether the event ends the session: `q` pressed while moving around.
    pub open spec fn quits(self, event: InputEvent) -> bool {
        &&& self.input_mode is Normal
        &&& event matches InputEvent::Key { code, kind }
        &&& kind is Press
        &&& code == Key::Char('q')
    }

    /// How `field` is drawn: marked where it has the focus, and marked
    /// otherwise again while it is typed into.
    pub open spec fn highlight(self, field: FocusedField) -> Highlight {
        if self.focused_field != field {
            Highlight::Plain
        } else if self.input_mode is Editing {
            Highlight::Editing
        } else {
            Highlight::Focused
        }
    }
}

/// The input form together with the models it looks up.
pub struct App<M> {
    my_city_point: String,
    plane_seating: String,
    selected_scenario_idx: usize,
    input_mode: InputMode,
    focused_field: FocusedField,
    prediction_system: PredictionSystem<M>,
    scenarios: Vec<Scenario>,
}

impl<M> View for App<M> {
    type V = FormState;

    closed spec fn view(&self) -> FormState {
        FormState {
            my_city_point: self.my_city_point@,
            plane_seating: self.plane_seating@,
            selected: self.selected_scenario_idx as int,
            input_mode: self.input_mode,
            focused_field: self.focused_field,
        }
    }
}

impl<M> App<M> {
    #[verifier::type_invariant]
    spec fn inv(self) -> bool {
        &&& self@.valid()
        &&& self.scenarios@ == Scenario::all_spec()
    }

    /// The models that the form was made with.
    pub closed spec fn models(&self) -> PredictionSystem<M> {
        self.prediction_system
    }

    /// The empty form over the models `sys`.
    pub fn new(sys: PredictionSystem<M>) -> (app: App<M>)
        ensures
            app@ == FormState::initial(),
            app.models() == sys,
    {
        App {
            my_city_point: String::new(),
            plane_seating: String::new(),
            selected_scenario_idx: 0,
            input_mode: InputMode::Normal,
            focused_field: FocusedField::MyCityPoint,
            prediction_system: sys,
            scenarios: Scenario::all(),
        }
    }

    /// The text typed into the field for the known city's points.
    pub fn my_city_point(&self) -> (text: &str)
        ensures
            text@ == self@.my_city_point,
            is_numeric_text(text@),
    {
        proof {
            use_type_invariant(self);
        }
        self.my_city_point.as_str()
    }

    /// The text typed into the field for the plane's seats.
    pub fn plane_seating(&self) -> (text: &str)
        ensures
            text@ == self@.plane_seating,
            is_numeric_text(text@),
    {
        proof {
            use_type_invariant(self);
        }
        self.plane_seating.as_str()
    }

    /// Whether keys are typed into a field just now.
    pub fn input_mode(&self) -> (mode: InputMode)
        ensures
            mode == self@.input_mode,
    {
        self.input_mode
    }

    /// The part of the form that has the focus.
    pub fn focused_field(&self) -> (field: FocusedField)
        ensures
            field == self@.focused_field,
    {
        self.focused_field
    }

    /// Position of the selected scenario in `Scenario::all()`.
    pub fn selected_scenario_idx(&self) -> (idx: usize)
        ensures
            idx == self@.selected,
            idx < 6,
    {
        proof {
            use_type_invariant(self);
        }
        self.selected_scenario_idx
    }

    /// The scenario that the selector shows.
    pub fn current_scenario(&self) -> (scenario: Scenario)
        ensures
            0 <= self@.selected < 6,
            scenario == self@.scenario(),
    {
        proof {
            use_type_invariant(self);
        }
        self.scenarios[self.selected_scenario_idx]
    }

    /// The model of the scenario that the selector shows.
    pub fn get_current_model(&self) -> (model: &M)
        ensures
            0 <= self@.selected < 6,
            *model == self.models()@[self@.scenario()],
    {
        let sc = self.current_scenario();
        self.prediction_system.model(sc)
    }

    /// How `field` is to be drawn.
    pub fn highlight(&self, field: FocusedField) -> (mark: Highlight)
        ensures
            mark == self@.highlight(field),
    {
        if self.focused_field == field {
            match self.input_mode {
                InputMode::Editing => Highlight::Editing,
                InputMode::Normal => Highlight::Focused,
            }
        } else {
            Highlight::Plain
        }
    }

    /// Moves the focus one field down.
    fn next_field(&mut self)
        requires
            old(self)@.input_mode is Normal,
        ensures
            final(self)@ == (FormState { focused_field: old(self)@.focused_field.next(), ..old(self)@ }),
            final(self).models() == old(self).models(),
    {
        proof {
            use_type_invariant(&*self);
        }
        self.focused_field = match self.focused_field {
            FocusedField::MyCityPoint => FocusedField::PlaneSeating,
            FocusedField::PlaneSeating => FocusedField::Scenario,
            FocusedField::Scenario => FocusedField::MyCityPoint,
        };
    }

    /// Moves the focus one field up.
    fn prev_field(&mut self)
        requires
            old(self)@.input_mode is Normal,
        ensures
            final(self)@ == (FormState { focused_field: old(self)@.focused_field.prev(), ..old(self)@ }),
            final(self).models() == old(self).models(),
    {
        proof {
            use_type_invariant(&*self);
        }
        self.focused_field = match self.focused_field {
            FocusedField::MyCityPoint => FocusedField::Scenario,
            FocusedField::PlaneSeating => FocusedField::MyCityPoint,
            FocusedField::Scenario => FocusedField::PlaneSeating,
        };
    }

    /// Selects the scenario after the current one, the first after the last.
    fn select_next(&mut self)
        ensures
            final(self)@ == old(self)@.select_next(),
            final(self).models() == old(self).models(),
    {
        proof {
            use_type_invariant(&*self);
        }
        if self.selected_scenario_idx + 1 >= self.scenarios.len() {
            self.selected_scenario_idx = 0;
        } else {
            self.selected_scenario_idx += 1;
        }
    }

    /// Selects the scenario before the current one, the last before the first.
    fn select_prev(&mut self)
        ensures
            final(self)@ == old(self)@.select_prev(),
            final(self).models() == old(self).models(),
    {
        proof {
            use_type_invariant(&*self);
        }
        if self.selected_scenario_idx > 0 {
            self.selected_scenario_idx -= 1;
        } else {
            self.selected_scenario_idx = self.scenarios.len() - 1;
        }
    }

    /// Takes a key that was pressed while moving around the form.
    fn press_normal(&mut self, code: Key) -> (outcome: Outcome)
        requires
            old(self)@.input_mode is Normal,
        ensures
            final(self)@ == old(self)@.on_normal_key(code),
            final(self).models() == old(self).models(),
            outcome == if code == Key::Char('q') {
                Outcome::Quit
            } else {
                Outcome::Continue
            },
    {
        proof {
            use_type_invariant(&*self);
        }
        match code {
            Key::Char(c) => {
                if c == 'q' {
                    return Outcome::Quit;
                }
            },
            Key::Tab | Key::Down => self.next_field(),
            Key::BackTab | Key::Up => self.prev_field(),
            Key::Enter => {
                if self.focused_field == FocusedField::Scenario {
                    self.select_next();
                } else {
                    self.input_mode = InputMode::Editing;
                }
            },
            Key::Left => {
                if self.focused_field == FocusedField::Scenario {
                    self.select_prev();
                }
            },
            Key::Right => {
                if self.focused_field == FocusedField::Scenario {
                    self.select_next();
                }
            },
            _ => {},
        }
        Outcome::Continue
    }

    /// Takes a key that was pressed while typing into a field.
    fn press_editing(&mut self, code: Key)
        requires
            old(self)@.input_mode is Editing,
        ensures
            final(self)@ == old(self)@.on_editing_key(code),
            final(self).models() == old(self).models(),
    {
        proof {
            use_type_invariant(&*self);
        }
        match code {
            Key::Enter | Key::Esc => {
                self.input_mode = InputMode::Normal;
            },
            Key::Char(c) => {
                match self.focused_field {
                    FocusedField::MyCityPoint => {
                        if accepts(c) {
                            let mut text = self.my_city_point.clone();
                            text.push(c);
                            self.my_city_point = text;
                        }
                    },
                    FocusedField::PlaneSeating => {
                        if accepts(c) {
                            let mut text = self.plane_seating.clone();
                            text.push(c);
                            self.plane_seating = text;
                        }
                    },
                    FocusedField::Scenario => {},
                }
            },
            Key::Backspace => {
                match self.focused_field {
                    FocusedField::MyCityPoint => {
                        let mut text = self.my_city_point.clone();
                        text.pop();
                        self.my_city_point = text;
                    },
                    FocusedField::PlaneSeating => {
                        let mut text = self.plane_seating.clone();
                        text.pop();
                        self.plane_seating = text;
                    },
                    FocusedField::Scenario => {},
                }
            },
            _ => {},
        }
    }

    /// Takes one event from the terminal and says whether the session goes
    /// on. Only a pressed key changes the form.
    pub fn handle_event(&mut self, event: InputEvent) -> (outcome: Outcome)
        ensures
            final(self)@ == old(self)@.step(event),
            final(self)@.valid(),
            final(self).models() == old(self).models(),
            outcome == if old(self)@.quits(event) {
                Outcome::Quit
            } else {
                Outcome::Continue
            },
    {
        proof {
            use_type_invariant(&*self);
        }
        let outcome = match event {
            InputEvent::Key { code, kind: KeyKind::Press } => {
                match self.input_mode {
                    InputMode::Normal => self.press_normal(code),
                    InputMode::Editing => {
                        self.press_editing(code);
                        Outcome::Continue
                    },
                }
            },
            _ => Outcome::Continue,
        };
        proof {
            use_type_invariant(&*self);
        }
        outcome
    }
}

/// The empty form is valid.
pub proof fn lemma_initial_is_valid()
    ensures
        FormState::initial().valid(),
{
}

/// No event leads from a valid form to one that is not.
pub proof fn lemma_step_keeps_valid(form: FormState, event: InputEvent)
    requires
        form.valid(),
    ensures
        form.step(event).valid(),
{
}

/// Moving the focus down and up again, or up and down again, or down three
/// times, leads back to the same field.
pub proof fn lemma_focus_goes_round(field: FocusedField)
    ensures
        field.next().prev() == field,
        field.prev().next() == field,
        field.next().next().next() == field,
{
}

/// Selecting the next scenario and then the one before it, or the other
/// way round, leads back to the same scenario, and so does selecting the
/// next one six times.
pub proof fn lemma_selection_goes_round(form: FormState)
    requires
        form.valid(),
    ensures
        form.select_next().select_prev() == form,
        form.select_prev().select_next() == form,
        form.select_next().select_next().select_next().select_next().select_next().select_next()
            == form,
{
}

/// While moving around nothing is typed, and while typing neither the
/// focus nor the selected scenario moves.
pub proof fn lemma_modes_keep_apart(form: FormState, code: Key)
    ensures
        form.input_mode is Normal ==> form.on_key(code).my_city_point == form.my_city_point
            && form.on_key(code).plane_seating == form.plane_seating,
        form.input_mode is Editing ==> form.on_key(code).focused_field == form.focused_field
            && form.on_key(code).selected == form.selected,
{
}

/// Backspace takes back a character that was just typed into a field.
pub proof fn lemma_backspace_undoes_typing(form: FormState, c: char)
    requires
        form.valid(),
        form.input_mode is Editing,
        is_numeric_char(c),
    ensures
        form.on_key(Key::Char(c)).on_key(Key::Backspace) == form,
{
    assert(form.my_city_point.push(c).drop_last() == form.my_city_point);
    assert(form.plane_seating.push(c).drop_last() == form.plane_seating);
}

} // verus!
