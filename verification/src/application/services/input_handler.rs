//! Player input: which keys are held, which actions they are mapped to, and the
//! commands that follow.
use crate::table::{insert_key, key_views, lookup_key, remove_key, str_table, views_unique};
use vstd::prelude::*;

verus! {

/// Actions that a key can be mapped to.
#[derive(Debug, Clone, Copy, PartialEq, Eq, Hash, Structural)]
pub enum InputAction {
    MoveUp,
    MoveDown,
    MoveLeft,
    MoveRight,
    Pause,
    Resume,
    Exit,
}

/// Commands that input gives the game. A move's direction is in whole steps along x
/// and y.
#[derive(Debug, Clone, Copy, PartialEq, Eq, Structural)]
pub enum InputCommand {
    Move { direction_x: i32, direction_y: i32 },
    Pause,
    Resume,
    Exit,
}

/// Whether key `k` is held down.
pub open spec fn held(pressed: Map<Seq<char>, bool>, k: Seq<char>) -> bool {
    pressed.dom().contains(k) && pressed[k]
}

/// Step along x of an action.
pub open spec fn action_dx(a: InputAction) -> int {
    match a {
        InputAction::MoveLeft => -1,
        InputAction::MoveRight => 1,
        _ => 0,
    }
}

/// Step along y of an action.
pub open spec fn action_dy(a: InputAction) -> int {
    match a {
        InputAction::MoveUp => 1,
        InputAction::MoveDown => -1,
        _ => 0,
    }
}

/// Sum along x of the steps of the mappings whose keys are held.
pub open spec fn movement_x(m: Seq<(String, InputAction)>, pressed: Map<Seq<char>, bool>) -> int
    decreases m.len(),
{
    if m.len() == 0 {
        0
    } else {
        movement_x(m.drop_last(), pressed) + if held(pressed, m.last().0@) { action_dx(m.last().1) } else { 0 }
    }
}

/// Sum along y of the steps of the mappings whose keys are held.
pub open spec fn movement_y(m: Seq<(String, InputAction)>, pressed: Map<Seq<char>, bool>) -> int
    decreases m.len(),
{
    if m.len() == 0 {
        0
    } else {
        movement_y(m.drop_last(), pressed) + if held(pressed, m.last().0@) { action_dy(m.last().1) } else { 0 }
    }
}

/// Whether some key mapped to `action` is held.
pub open spec fn action_held(m: Seq<(String, InputAction)>, pressed: Map<Seq<char>, bool>, action: InputAction) -> bool {
    exists|i: int| 0 <= i < m.len() && (#[trigger] m[i]).1 == action && held(pressed, m[i].0@)
}

/// Whether some key among the first `n` mappings is mapped to `action` and held.
pub open spec fn held_among(m: Seq<(String, InputAction)>, pressed: Map<Seq<char>, bool>, action: InputAction, n: int) -> bool {
    exists|j: int| 0 <= j < n && (#[trigger] m[j]).1 == action && held(pressed, m[j].0@)
}

/// The keys mapped when the service starts.
pub open spec fn default_key_map() -> Map<Seq<char>, InputAction> {
    Map::empty().insert("w"@, InputAction::MoveUp).insert("s"@, InputAction::MoveDown)
        .insert("a"@, InputAction::MoveLeft).insert("d"@, InputAction::MoveRight)
        .insert("ArrowUp"@, InputAction::MoveUp).insert("ArrowDown"@, InputAction::MoveDown)
        .insert("ArrowLeft"@, InputAction::MoveLeft).insert("ArrowRight"@, InputAction::MoveRight)
        .insert("p"@, InputAction::Pause).insert("Escape"@, InputAction::Pause)
        .insert("q"@, InputAction::Exit)
}

/// Which keys are held, and the movement they add up to.
#[derive(Debug, Clone)]
pub struct InputState {
    pressed_keys: Vec<(String, bool)>,
    movement_x: i32,
    movement_y: i32,
}

impl InputState {
    /// The keys with a recorded state, and whether each is held.
    pub closed spec fn pressed(&self) -> Map<Seq<char>, bool> {
        str_table(self.pressed_keys@)
    }

    /// The movement of the held keys, as last worked out.
    pub closed spec fn spec_movement(&self) -> (i32, i32) {
        (self.movement_x, self.movement_y)
    }

    /// No key held, no movement.
    pub fn new() -> (r: Self)
        ensures
            r.pressed() == Map::<Seq<char>, bool>::empty(),
            r.spec_movement() == (0i32, 0i32),
    {
        let r = InputState { pressed_keys: Vec::new(), movement_x: 0, movement_y: 0 };
        assert(key_views(r.pressed_keys@) =~= Seq::<(Seq<char>, bool)>::empty());
        assert(views_unique(r.pressed_keys@));
        r
    }

    /// Whether a key is held down.
    pub fn is_key_pressed(&self, key: &str) -> (r: bool)
        ensures
            r == held(self.pressed(), key@),
    {
        let k = String::from_str(key);
        match lookup_key(&self.pressed_keys, &k) {
            Some(b) => b,
            None => false,
        }
    }

    /// The movement of the held keys, in whole steps along x and y.
    pub fn movement_vector(&self) -> (r: (i32, i32))
        ensures
            r == self.spec_movement(),
    {
        (self.movement_x, self.movement_y)
    }
}

impl Default for InputState {
    fn default() -> (r: Self)
        ensures
            r.pressed() == Map::<Seq<char>, bool>::empty(),
            r.spec_movement() == (0i32, 0i32),
    {
        Self::new()
    }
}

/// Turns key presses into actions and commands.
pub struct InputHandlerService {
    input_state: InputState,
    key_mappings: Vec<(String, InputAction)>,
}

impl InputHandlerService {
    #[verifier::type_invariant]
    spec fn well_formed(&self) -> bool {
        views_unique(self.input_state.pressed_keys@) && views_unique(self.key_mappings@)
    }

    /// The mappings, each key once.
    pub closed spec fn mapping_entries(&self) -> Seq<(String, InputAction)> {
        self.key_mappings@
    }

    /// The action of each mapped key.
    pub open spec fn mappings(&self) -> Map<Seq<char>, InputAction> {
        str_table(self.mapping_entries())
    }

    /// The state of the keys.
    pub closed spec fn state(&self) -> InputState {
        self.input_state
    }

    /// A service with the default keys: w, s, a, d and the arrow keys move, p and
    /// Escape pause, q exits.
    pub fn new() -> (r: Self)
        ensures
            r.mappings() == default_key_map(),
            r.state().pressed() == Map::<Seq<char>, bool>::empty(),
            r.state().spec_movement() == (0i32, 0i32),
    {
        let mut key_mappings: Vec<(String, InputAction)> = Vec::new();
        proof {
            assert(key_views(key_mappings@) =~= Seq::<(Seq<char>, InputAction)>::empty());
            assert(views_unique(key_mappings@));
        }
        insert_key(&mut key_mappings, String::from_str("w"), InputAction::MoveUp);
        insert_key(&mut key_mappings, String::from_str("s"), InputAction::MoveDown);
        insert_key(&mut key_mappings, String::from_str("a"), InputAction::MoveLeft);
        insert_key(&mut key_mappings, String::from_str("d"), InputAction::MoveRight);
        insert_key(&mut key_mappings, String::from_str("ArrowUp"), InputAction::MoveUp);
        insert_key(&mut key_mappings, String::from_str("ArrowDown"), InputAction::MoveDown);
        insert_key(&mut key_mappings, String::from_str("ArrowLeft"), InputAction::MoveLeft);
        insert_key(&mut key_mappings, String::from_str("ArrowRight"), InputAction::MoveRight);
        insert_key(&mut key_mappings, String::from_str("p"), InputAction::Pause);
        insert_key(&mut key_mappings, String::from_str("Escape"), InputAction::Pause);
        insert_key(&mut key_mappings, String::from_str("q"), InputAction::Exit);
        let input_state = InputState { pressed_keys: Vec::new(), movement_x: 0, movement_y: 0 };
        proof {
            assert(key_views(input_state.pressed_keys@) =~= Seq::<(Seq<char>, bool)>::empty());
            assert(views_unique(input_state.pressed_keys@));
        }
        InputHandlerService { input_state, key_mappings }
    }

    /// Record that a key is pressed or released, and work out the movement again.
    pub fn update_key_state(&mut self, key: &str, pressed: bool)
        requires
            old(self).mapping_entries().len() <= i32::MAX,
        ensures
            final(self).state().pressed() == old(self).state().pressed().insert(key@, pressed),
            final(self).mapping_entries() == old(self).mapping_entries(),
            final(self).state().spec_movement() == ((movement_x(final(self).mapping_entries(), final(self).state().pressed()) as i32,
                movement_y(final(self).mapping_entries(), final(self).state().pressed()) as i32)),
            -i32::MAX <= movement_x(final(self).mapping_entries(), final(self).state().pressed()) <= i32::MAX,
            -i32::MAX <= movement_y(final(self).mapping_entries(), final(self).state().pressed()) <= i32::MAX,
    {
        proof { use_type_invariant(&*self); }
        let mut keys: Vec<(String, bool)> = Vec::new();
        std::mem::swap(&mut keys, &mut self.input_state.pressed_keys);
        insert_key(&mut keys, String::from_str(key), pressed);
        self.input_state.pressed_keys = keys;
        self.update_movement_vector();
    }

    /// Work out the movement of the held keys.
    fn update_movement_vector(&mut self)
        requires
            old(self).mapping_entries().len() <= i32::MAX,
        ensures
            final(self).state().pressed() == old(self).state().pressed(),
            final(self).mapping_entries() == old(self).mapping_entries(),
            final(self).state().spec_movement() == ((movement_x(old(self).mapping_entries(), old(self).state().pressed()) as i32,
                movement_y(old(self).mapping_entries(), old(self).state().pressed()) as i32)),
            -i32::MAX <= movement_x(old(self).mapping_entries(), old(self).state().pressed()) <= i32::MAX,
            -i32::MAX <= movement_y(old(self).mapping_entries(), old(self).state().pressed()) <= i32::MAX,
    {
        proof { use_type_invariant(&*self); }
        let mut x: i32 = 0;
        let mut y: i32 = 0;
        let mut i: usize = 0;
        let ghost m = self.key_mappings@;
        let ghost pr = self.input_state.pressed();
        while i < self.key_mappings.len()
            invariant
                m == self.key_mappings@,
                pr == self.input_state.pressed(),
                m.len() <= i32::MAX,
                0 <= i <= m.len(),
                x == movement_x(m.take(i as int), pr),
                y == movement_y(m.take(i as int), pr),
                -i <= x <= i,
                -i <= y <= i,
            decreases m.len() - i,
        {
            proof {
                assert(m.take(i + 1).drop_last() =~= m.take(i as int));
                assert(m.take(i + 1).last() == m[i as int]);
            }
            if self.input_state.is_key_pressed(self.key_mappings[i].0.as_str()) {
                match self.key_mappings[i].1 {
                    InputAction::MoveLeft => x = x - 1,
                    InputAction::MoveRight => x = x + 1,
                    InputAction::MoveUp => y = y + 1,
                    InputAction::MoveDown => y = y - 1,
                    _ => {},
                }
            }
            i = i + 1;
        }
        proof {
            assert(m.take(i as int) =~= m);
        }
        self.input_state.movement_x = x;
        self.input_state.movement_y = y;
    }

    /// The movement of the held keys, in whole steps along x and y.
    pub fn get_movement_vector(&self) -> (r: (i32, i32))
        ensures
            r == self.state().spec_movement(),
    {
        self.input_state.movement_vector()
    }

    /// Whether some key mapped to `action` is held.
    pub fn is_action_active(&self, action: &InputAction) -> (r: bool)
        ensures
            r == action_held(self.mapping_entries(), self.state().pressed(), *action),
    {
        let mut i: usize = 0;
        while i < self.key_mappings.len()
            invariant
                0 <= i <= self.key_mappings@.len(),
                forall|j: int| 0 <= j < i ==> !((#[trigger] self.key_mappings@[j]).1 == *action
                    && held(self.input_state.pressed(), self.key_mappings@[j].0@)),
            decreases self.key_mappings@.len() - i,
        {
            if self.key_mappings[i].1 == *action && self.input_state.is_key_pressed(self.key_mappings[i].0.as_str()) {
                assert(self.key_mappings@[i as int].1 == *action);
                return true;
            }
            i = i + 1;
        }
        false
    }

    /// The actions of the held keys, each once, in the order of the mappings.
    pub fn get_active_actions(&self) -> (r: Vec<InputAction>)
        ensures
            forall|a: InputAction| r@.contains(a) <==> action_held(self.mapping_entries(), self.state().pressed(), a),
            forall|a: int, b: int| 0 <= a < b < r@.len() ==> r@[a] != r@[b],
    {
        let mut active: Vec<InputAction> = Vec::new();
        let mut i: usize = 0;
        while i < self.key_mappings.len()
            invariant
                0 <= i <= self.key_mappings@.len(),
                forall|a: InputAction| active@.contains(a) <==> #[trigger] held_among(self.key_mappings@, self.input_state.pressed(), a, i as int),
                forall|a: int, b: int| 0 <= a < b < active@.len() ==> active@[a] != active@[b],
            decreases self.key_mappings@.len() - i,
        {
            let action = self.key_mappings[i].1;
            let ghost a0 = active@;
            let ghost km = self.key_mappings@;
            let ghost pr = self.input_state.pressed();
            let is_held = self.input_state.is_key_pressed(self.key_mappings[i].0.as_str());
            if is_held && !contains_action(&active, action) {
                active.push(action);
            }
            proof {
                assert forall|a: InputAction| active@.contains(a) <==> (a0.contains(a) || (a == km[i as int].1 && held(pr, km[i as int].0@))) by {
                    if active@.len() > a0.len() {
                        assert(active@ == a0.push(action));
                        if active@.contains(a) && !a0.contains(a) {
                            let k = choose|k: int| 0 <= k < active@.len() && active@[k] == a;
                            assert(k == a0.len());
                        }
                        if a0.contains(a) {
                            let k = choose|k: int| 0 <= k < a0.len() && a0[k] == a;
                            assert(active@[k] == a);
                        }
                        if a == action {
                            assert(active@[a0.len() as int] == a);
                        }
                    }
                }
                assert forall|a: InputAction| #[trigger] held_among(km, pr, a, i + 1)
                    <==> (held_among(km, pr, a, i as int) || (a == km[i as int].1 && held(pr, km[i as int].0@))) by {
                    if held_among(km, pr, a, i + 1) {
                        let j = choose|j: int| 0 <= j < i + 1 && (#[trigger] km[j]).1 == a && held(pr, km[j].0@);
                        if j == i as int {
                        } else {
                            assert(0 <= j < i && km[j].1 == a && held(pr, km[j].0@));
                        }
                    }
                    if a == km[i as int].1 && held(pr, km[i as int].0@) {
                        assert(0 <= i < i + 1 && km[i as int].1 == a);
                    }
                }
            }
            i = i + 1;
        }
        proof {
            assert forall|a: InputAction| active@.contains(a) <==> action_held(self.mapping_entries(), self.state().pressed(), a) by {
                assert(active@.contains(a) <==> held_among(self.key_mappings@, self.input_state.pressed(), a, i as int));
            }
        }
        active
    }

    /// Map a key to an action, replacing any mapping of that key.
    pub fn map_key(&mut self, key: String, action: InputAction)
        ensures
            final(self).mappings() == old(self).mappings().insert(key@, action),
            final(self).state() == old(self).state(),
    {
        proof { use_type_invariant(&*self); }
        let mut mappings: Vec<(String, InputAction)> = Vec::new();
        std::mem::swap(&mut mappings, &mut self.key_mappings);
        insert_key(&mut mappings, key, action);
        self.key_mappings = mappings;
    }

    /// Drop the mapping of a key.
    pub fn unmap_key(&mut self, key: &str)
        ensures
            final(self).mappings() == old(self).mappings().remove(key@),
            final(self).state() == old(self).state(),
    {
        proof { use_type_invariant(&*self); }
        let mut mappings: Vec<(String, InputAction)> = Vec::new();
        std::mem::swap(&mut mappings, &mut self.key_mappings);
        remove_key(&mut mappings, &String::from_str(key));
        self.key_mappings = mappings;
    }

    /// The state of the keys.
    pub fn input_state(&self) -> (r: &InputState)
        ensures
            *r == self.state(),
    {
        &self.input_state
    }

    /// The commands of the held keys: a move when the movement is not zero, then a
    /// pause when a pause key is held, then an exit when an exit key is held.
    pub fn process_input(&self) -> (r: Vec<InputCommand>)
        ensures
            r@ == (if self.state().spec_movement() != (0i32, 0i32) {
                seq![InputCommand::Move { direction_x: self.state().spec_movement().0, direction_y: self.state().spec_movement().1 }]
            } else {
                Seq::<InputCommand>::empty()
            }) + (if action_held(self.mapping_entries(), self.state().pressed(), InputAction::Pause) {
                seq![InputCommand::Pause]
            } else {
                Seq::<InputCommand>::empty()
            }) + (if action_held(self.mapping_entries(), self.state().pressed(), InputAction::Exit) {
                seq![InputCommand::Exit]
            } else {
                Seq::<InputCommand>::empty()
            }),
    {
        let mut commands: Vec<InputCommand> = Vec::new();
        let (x, y) = self.get_movement_vector();
        if x != 0 || y != 0 {
            commands.push(InputCommand::Move { direction_x: x, direction_y: y });
        }
        let ghost c1 = commands@;
        if self.is_action_active(&InputAction::Pause) {
            commands.push(InputCommand::Pause);
        }
        let ghost c2 = commands@;
        if self.is_action_active(&InputAction::Exit) {
            commands.push(InputCommand::Exit);
        }
        proof {
            assert(commands@ =~= (if self.state().spec_movement() != (0i32, 0i32) {
                seq![InputCommand::Move { direction_x: self.state().spec_movement().0, direction_y: self.state().spec_movement().1 }]
            } else {
                Seq::<InputCommand>::empty()
            }) + (if action_held(self.mapping_entries(), self.state().pressed(), InputAction::Pause) {
                seq![InputCommand::Pause]
            } else {
                Seq::<InputCommand>::empty()
            }) + (if action_held(self.mapping_entries(), self.state().pressed(), InputAction::Exit) {
                seq![InputCommand::Exit]
            } else {
                Seq::<InputCommand>::empty()
            }));
        }
        commands
    }
}

impl Default for InputHandlerService {
    fn default() -> (r: Self)
        ensures
            r.mappings() == default_key_map(),
            r.state().pressed() == Map::<Seq<char>, bool>::empty(),
            r.state().spec_movement() == (0i32, 0i32),
    {
        Self::new()
    }
}

/// The movement depends on which keys are held and nothing else.
proof fn lemma_movement_follows_held(m: Seq<(String, InputAction)>, p1: Map<Seq<char>, bool>, p2: Map<Seq<char>, bool>)
    requires
        forall|k: Seq<char>| #[trigger] held(p1, k) == held(p2, k),
    ensures
        movement_x(m, p1) == movement_x(m, p2),
        movement_y(m, p1) == movement_y(m, p2),
    decreases m.len(),
{
    if m.len() > 0 {
        lemma_movement_follows_held(m.drop_last(), p1, p2);
        assert(held(p1, m.last().0@) == held(p2, m.last().0@));
    }
}

/// Releasing a key undoes pressing it: pressing a key that was not held and then
/// releasing it leaves the movement, and every action's activity, as before.
pub proof fn releasing_a_key_undoes_pressing_it(m: Seq<(String, InputAction)>, pressed: Map<Seq<char>, bool>, k: Seq<char>, a: InputAction)
    requires
        !held(pressed, k),
    ensures
        movement_x(m, pressed.insert(k, true).insert(k, false)) == movement_x(m, pressed),
        movement_y(m, pressed.insert(k, true).insert(k, false)) == movement_y(m, pressed),
        action_held(m, pressed.insert(k, true).insert(k, false), a) == action_held(m, pressed, a),
{
    let after = pressed.insert(k, true).insert(k, false);
    assert forall|j: Seq<char>| #[trigger] held(after, j) == held(pressed, j) by {}
    lemma_movement_follows_held(m, after, pressed);
    if action_held(m, after, a) {
        let i = choose|i: int| 0 <= i < m.len() && (#[trigger] m[i]).1 == a && held(after, m[i].0@);
        assert(held(pressed, m[i].0@));
    }
    if action_held(m, pressed, a) {
        let i = choose|i: int| 0 <= i < m.len() && (#[trigger] m[i]).1 == a && held(pressed, m[i].0@);
        assert(held(after, m[i].0@));
    }
}

/// Whether `action` occurs in `v`.
fn contains_action(v: &Vec<InputAction>, action: InputAction) -> (r: bool)
    ensures
        r == v@.contains(action),
{
    let mut i: usize = 0;
    while i < v.len()
        invariant
            0 <= i <= v@.len(),
            forall|j: int| 0 <= j < i ==> v@[j] != action,
        decreases v@.len() - i,
    {
        if v[i] == action {
            assert(v@[i as int] == action);
            return true;
        }
        i = i + 1;
    }
    false
}

} // verus!
