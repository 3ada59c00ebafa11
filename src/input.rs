//! Maps named actions to physical keys and tracks each key through an
//! edge-latching life-cycle of press, hold, release and rest.
use vstd::prelude::*;

verus! {

/// The logical state of a tracked key, as seen by gameplay code on one tick.
#[derive(Copy, Clone, Debug, PartialEq, Eq, Structural)]
pub enum KeyState {
    /// Not pressed, fully settled.
    Idle,
    /// Freshly pressed, not yet settled into `Held`.
    New,
    /// Pressed, steady state.
    Held,
    /// Freshly released, not yet settled into `Idle`.
    Released,
}

impl KeyState {
    /// Freshly pressed or held.
    pub open spec fn is_pressed(self) -> bool {
        self == KeyState::New || self == KeyState::Held
    }

    /// The key is down: either freshly pressed or held.
    #[must_use]
    pub fn pressed(self) -> (r: bool)
        ensures
            r == self.is_pressed(),
    {
        matches!(self, KeyState::New | KeyState::Held)
    }

    /// The key went down recently enough that it has not settled yet.
    #[must_use]
    pub fn just_pressed(self) -> (r: bool)
        ensures
            r == (self == KeyState::New),
    {
        self == KeyState::New
    }

    /// The key went up recently enough that it has not settled yet.
    #[must_use]
    pub fn just_released(self) -> (r: bool)
        ensures
            r == (self == KeyState::Released),
    {
        self == KeyState::Released
    }
}

/// A physical input (keyboard key, gamepad button, ...), identified by a code
/// that the input backend assigns. The tracker only stores and compares keys.
#[derive(Copy, Clone, Debug, PartialEq, Eq, Hash, Structural)]
pub struct Key(pub u32);

/// What the tracker remembers of one key.
#[derive(Copy, Clone, Debug, PartialEq, Eq, Structural)]
pub struct KeyStateHistory {
    /// Set once the update loop sees a fresh press for the first time.
    /// The key state will decay on the next update if this is set.
    pub press_ack: bool,
    /// Set once the update loop sees a fresh release for the first time.
    /// The key state will decay on the next update if this is set.
    pub release_ack: bool,
    pub state: KeyState,
}

impl KeyStateHistory {
    /// The record of a key that was just registered.
    pub open spec fn fresh() -> KeyStateHistory {
        KeyStateHistory { press_ack: false, release_ack: false, state: KeyState::Idle }
    }

    /// The record with its state replaced; the latches are kept.
    pub open spec fn with_state(self, state: KeyState) -> KeyStateHistory {
        KeyStateHistory { press_ack: self.press_ack, release_ack: self.release_ack, state }
    }

    /// One acknowledgement: a fresh press or release settles only when its
    /// latch was already set, and the latch flips either way.
    pub open spec fn decayed(self) -> KeyStateHistory {
        match self.state {
            KeyState::New => KeyStateHistory {
                press_ack: !self.press_ack,
                release_ack: self.release_ack,
                state: if self.press_ack { KeyState::Held } else { KeyState::New },
            },
            KeyState::Released => KeyStateHistory {
                press_ack: self.press_ack,
                release_ack: !self.release_ack,
                state: if self.release_ack { KeyState::Idle } else { KeyState::Released },
            },
            _ => self,
        }
    }

    fn new_record() -> (r: KeyStateHistory)
        ensures
            r == KeyStateHistory::fresh(),
    {
        KeyStateHistory { press_ack: false, release_ack: false, state: KeyState::Idle }
    }

    fn decay(&mut self)
        ensures
            *final(self) == old(self).decayed(),
    {
        match self.state {
            KeyState::New => {
                if self.press_ack {
                    self.state = KeyState::Held;
                }
                self.press_ack = !self.press_ack;
            },
            KeyState::Released => {
                if self.release_ack {
                    self.state = KeyState::Idle;
                }
                self.release_ack = !self.release_ack;
            },
            _ => {},
        }
    }
}

/// The abstract content of an [`InputMap`]: which key each action names, and
/// the record of each tracked key.
pub struct InputMapView {
    pub bindings: Map<Seq<char>, Key>,
    pub records: Map<Key, KeyStateHistory>,
}

impl InputMapView {
    pub open spec fn empty() -> InputMapView {
        InputMapView { bindings: Map::empty(), records: Map::empty() }
    }

    /// Every key that an action names is tracked.
    pub open spec fn consistent(self) -> bool {
        forall|a: Seq<char>| #[trigger]
            self.bindings.contains_key(a) ==> self.records.contains_key(self.bindings[a])
    }

    /// Binds `action` to `key` and gives `key` a fresh record.
    pub open spec fn registered(self, action: Seq<char>, key: Key) -> InputMapView {
        InputMapView {
            bindings: self.bindings.insert(action, key),
            records: self.records.insert(key, KeyStateHistory::fresh()),
        }
    }

    /// Registers each pair in order.
    pub open spec fn registered_all(self, pairs: Seq<(Seq<char>, Key)>) -> InputMapView
        decreases pairs.len(),
    {
        if pairs.len() == 0 {
            self
        } else {
            let last = pairs.last();
            self.registered_all(pairs.drop_last()).registered(last.0, last.1)
        }
    }

    /// Sets the state of `key`, if it is tracked.
    pub open spec fn set_state(self, key: Key, state: KeyState) -> InputMapView {
        if self.records.contains_key(key) {
            InputMapView {
                bindings: self.bindings,
                records: self.records.insert(key, self.records[key].with_state(state)),
            }
        } else {
            self
        }
    }

    pub open spec fn pressed(self, key: Key) -> InputMapView {
        self.set_state(key, KeyState::New)
    }

    pub open spec fn released(self, key: Key) -> InputMapView {
        self.set_state(key, KeyState::Released)
    }

    /// Every tracked record decays once.
    pub open spec fn acknowledged(self) -> InputMapView {
        InputMapView {
            bindings: self.bindings,
            records: Map::new(
                |k: Key| self.records.contains_key(k),
                |k: Key| self.records[k].decayed(),
            ),
        }
    }

    /// The state that gameplay code reads for `action`: that of its key, or
    /// `Idle` for an action that names no key.
    pub open spec fn state_of(self, action: Seq<char>) -> KeyState {
        if self.bindings.contains_key(action) && self.records.contains_key(self.bindings[action]) {
            self.records[self.bindings[action]].state
        } else {
            KeyState::Idle
        }
    }
}

/// The names and keys of `pairs`, in order.
pub open spec fn pair_names(pairs: Seq<(&str, Key)>) -> Seq<(Seq<char>, Key)> {
    pairs.map_values(|p: (&str, Key)| (p.0@, p.1))
}

/// The binding table holds each name once, and exactly the bindings of `m`.
pub closed spec fn bindings_match(t: Seq<(String, Key)>, m: Map<Seq<char>, Key>) -> bool {
    &&& forall|i: int, j: int|
        0 <= i < j < t.len() ==> #[trigger] t[i].0@ != #[trigger] t[j].0@
    &&& forall|i: int|
        0 <= i < t.len() ==> m.contains_key(#[trigger] t[i].0@) && m[t[i].0@] == t[i].1
    &&& forall|a: Seq<char>| #[trigger]
        m.contains_key(a) ==> exists|i: int| 0 <= i < t.len() && #[trigger] t[i].0@ == a
}

/// The record table holds each key once, and exactly the records of `m`.
pub closed spec fn records_match(t: Seq<(Key, KeyStateHistory)>, m: Map<Key, KeyStateHistory>) -> bool {
    &&& forall|i: int, j: int| 0 <= i < j < t.len() ==> #[trigger] t[i].0 != #[trigger] t[j].0
    &&& forall|i: int| 0 <= i < t.len() ==> m.contains_key(#[trigger] t[i].0) && m[t[i].0] == t[i].1
    &&& forall|k: Key| #[trigger]
        m.contains_key(k) ==> exists|i: int| 0 <= i < t.len() && #[trigger] t[i].0 == k
}

/// The tracker: a table from action names to keys, and one record per
/// tracked key.
#[derive(Clone)]
pub struct InputMap {
    bindings: Vec<(String, Key)>,
    records: Vec<(Key, KeyStateHistory)>,
    model: Ghost<InputMapView>,
}

impl Default for InputMap {
    fn default() -> (r: InputMap)
        ensures
            r.wf(),
            r@ == InputMapView::empty(),
    {
        InputMap::new()
    }
}

impl View for InputMap {
    type V = InputMapView;

    closed spec fn view(&self) -> InputMapView {
        self.model@
    }
}

impl InputMap {
    /// The tables agree with the model: names and keys are unique, each entry
    /// is in the model and each entry of the model is in the tables.
    pub closed spec fn tables_match(&self) -> bool {
        &&& bindings_match(self.bindings@, self.model@.bindings)
        &&& records_match(self.records@, self.model@.records)
    }

    /// Well-formed: the tables match the model and the model is consistent.
    pub open spec fn wf(&self) -> bool {
        self.tables_match() && self@.consistent()
    }

    /// A tracker with no bindings and no tracked keys.
    pub fn new() -> (r: InputMap)
        ensures
            r.wf(),
            r@ == InputMapView::empty(),
    {
        InputMap { bindings: Vec::new(), records: Vec::new(), model: Ghost(InputMapView::empty()) }
    }

    /// Where `name` stands in the binding table, if anywhere.
    fn binding_index(&self, name: &String) -> (r: Option<usize>)
        requires
            self.wf(),
        ensures
            r is None <==> !self@.bindings.contains_key(name@),
            r matches Some(i) ==> i < self.bindings@.len() && self.bindings@[i as int].0@ == name@,
    {
        let mut i: usize = 0;
        while i < self.bindings.len()
            invariant
                self.wf(),
                i <= self.bindings@.len(),
                forall|j: int| 0 <= j < i ==> self.bindings@[j].0@ != name@,
            decreases self.bindings@.len() - i,
        {
            if self.bindings[i].0 == *name {
                return Some(i);
            }
            i = i + 1;
        }
        None
    }

    /// Where `key` stands in the record table, if anywhere.
    fn record_index(&self, key: Key) -> (r: Option<usize>)
        requires
            self.wf(),
        ensures
            r is None <==> !self@.records.contains_key(key),
            r matches Some(i) ==> i < self.records@.len() && self.records@[i as int].0 == key,
    {
        let mut i: usize = 0;
        while i < self.records.len()
            invariant
                self.wf(),
                i <= self.records@.len(),
                forall|j: int| 0 <= j < i ==> self.records@[j].0 != key,
            decreases self.records@.len() - i,
        {
            if self.records[i].0 == key {
                return Some(i);
            }
            i = i + 1;
        }
        None
    }
    /// The record of a key that is known to be tracked.
    fn record_of(&self, key: Key) -> (r: KeyStateHistory)
        requires
            self.wf(),
            self@.records.contains_key(key),
        ensures
            r == self@.records[key],
    {
        let n = self.records.len();
        let mut i: usize = 0;
        loop
            invariant
                n == self.records@.len(),
                self.wf(),
                self@.records.contains_key(key),
                exists|j: int| i <= j < self.records@.len() && #[trigger] self.records@[j].0 == key,
            decreases self.records@.len() - i,
        {
            if self.records[i].0 == key {
                return self.records[i].1;
            }
            i = i + 1;
        }
    }

    /// A tracker that registers each pair in turn, so a later pair wins over
    /// an earlier one with the same name.
    pub fn from_pairs(pairs: &[(&str, Key)]) -> (r: InputMap)
        ensures
            r.wf(),
            r@ == InputMapView::empty().registered_all(pair_names(pairs@)),
    {
        let mut r = InputMap::new();
        let ghost all = pair_names(pairs@);
        let mut i: usize = 0;
        while i < pairs.len()
            invariant
                i <= pairs@.len(),
                all == pair_names(pairs@),
                r.wf(),
                r@ == InputMapView::empty().registered_all(all.take(i as int)),
            decreases pairs@.len() - i,
        {
            let (name, key) = pairs[i];
            r.register(name.to_owned(), key);
            proof {
                assert(all.take(i + 1).drop_last() =~= all.take(i as int));
            }
            i = i + 1;
        }
        proof {
            assert(all.take(pairs@.len() as int) =~= all);
        }
        r
    }

    /// Binds `identifier` to `key`, replacing any earlier binding of that
    /// name, and (re)starts tracking `key` from rest with both latches clear.
    pub fn register(&mut self, identifier: String, key: Key)
        requires
            old(self).wf(),
        ensures
            final(self).wf(),
            final(self)@ == old(self)@.registered(identifier@, key),
    {
        let ghost name = identifier@;
        let ghost v0 = self@;
        let ghost b0 = self.bindings@;
        let ghost r0 = self.records@;
        let found_binding = self.binding_index(&identifier);
        let found_record = self.record_index(key);
        match found_binding {
            Some(i) => {
                self.bindings.set(i, (identifier, key));
            },
            None => {
                self.bindings.push((identifier, key));
            },
        }
        match found_record {
            Some(i) => {
                self.records.set(i, (key, KeyStateHistory::new_record()));
            },
            None => {
                self.records.push((key, KeyStateHistory::new_record()));
            },
        }
        self.model = Ghost(v0.registered(name, key));
        proof {
            let v = self@;
            let bi: int = match found_binding {
                Some(i) => i as int,
                None => b0.len() as int,
            };
            let ri: int = match found_record {
                Some(i) => i as int,
                None => r0.len() as int,
            };
            assert(self.bindings@[bi].0@ == name);
            assert(self.records@[ri].0 == key);
            assert forall|a: Seq<char>| #[trigger] v.bindings.contains_key(a) implies exists|i: int|
                0 <= i < self.bindings@.len() && #[trigger] self.bindings@[i].0@ == a by {
                if a != name {
                    let j = choose|j: int| 0 <= j < b0.len() && #[trigger] b0[j].0@ == a;
                    assert(self.bindings@[j] == b0[j]);
                }
            }
            assert forall|k: Key| #[trigger] v.records.contains_key(k) implies exists|i: int|
                0 <= i < self.records@.len() && #[trigger] self.records@[i].0 == k by {
                if k != key {
                    let j = choose|j: int| 0 <= j < r0.len() && #[trigger] r0[j].0 == k;
                    assert(self.records@[j] == r0[j]);
                }
            }
            assert(bindings_match(self.bindings@, v.bindings));
            assert(records_match(self.records@, v.records));
        }
    }

    /// Sets the state of `key` if it is tracked; the latches are kept.
    fn set_state(&mut self, key: Key, state: KeyState)
        requires
            old(self).wf(),
        ensures
            final(self).wf(),
            final(self)@ == old(self)@.set_state(key, state),
    {
        let ghost v0 = self@;
        let ghost r0 = self.records@;
        match self.record_index(key) {
            Some(i) => {
                let (k, h) = self.records[i];
                let updated = KeyStateHistory {
                    press_ack: h.press_ack,
                    release_ack: h.release_ack,
                    state,
                };
                self.records.set(i, (k, updated));
                self.model = Ghost(v0.set_state(key, state));
                proof {
                    let v = self@;
                    assert forall|k: Key| #[trigger] v.records.contains_key(k) implies exists|i: int|
                        0 <= i < self.records@.len() && #[trigger] self.records@[i].0 == k by {
                        let j = choose|j: int| 0 <= j < r0.len() && #[trigger] r0[j].0 == k;
                        assert(self.records@[j].0 == r0[j].0);
                    }
                }
            },
            None => {},
        }
    }

    /// The backend reports that `key` went down. A key that is not tracked
    /// is ignored.
    pub fn press(&mut self, key: Key)
        requires
            old(self).wf(),
        ensures
            final(self).wf(),
            final(self)@ == old(self)@.pressed(key),
    {
        self.set_state(key, KeyState::New);
    }

    /// The backend reports that `key` went up. A key that is not tracked
    /// is ignored.
    pub fn release(&mut self, key: Key)
        requires
            old(self).wf(),
        ensures
            final(self).wf(),
            final(self)@ == old(self)@.released(key),
    {
        self.set_state(key, KeyState::Released);
    }

    /// Once per tick: every tracked key decays by one step.
    pub fn acknowledge(&mut self)
        requires
            old(self).wf(),
        ensures
            final(self).wf(),
            final(self)@ == old(self)@.acknowledged(),
    {
        let ghost v0 = self@;
        let ghost r0 = self.records@;
        let ghost b0 = self.bindings@;
        let mut i: usize = 0;
        while i < self.records.len()
            invariant
                self.model@ == v0,
                self.bindings@ == b0,
                self.records@.len() == r0.len(),
                i <= r0.len(),
                forall|j: int|
                    0 <= j < i ==> #[trigger] self.records@[j] == (r0[j].0, r0[j].1.decayed()),
                forall|j: int| i <= j < r0.len() ==> #[trigger] self.records@[j] == r0[j],
            decreases r0.len() - i,
        {
            let (k, h) = self.records[i];
            let mut h = h;
            h.decay();
            self.records.set(i, (k, h));
            i = i + 1;
        }
        self.model = Ghost(v0.acknowledged());
        proof {
            let v = self@;
            assert forall|k: Key| #[trigger] v.records.contains_key(k) implies exists|i: int|
                0 <= i < self.records@.len() && #[trigger] self.records@[i].0 == k by {
                let j = choose|j: int| 0 <= j < r0.len() && #[trigger] r0[j].0 == k;
                assert(self.records@[j].0 == r0[j].0);
            }
        }
    }

    /// The state of the key that `action` names, or `Idle` where `action`
    /// names none.
    pub fn get(&self, action: &str) -> (r: KeyState)
        requires
            self.wf(),
        ensures
            r == self@.state_of(action@),
    {
        let name = action.to_owned();
        match self.binding_index(&name) {
            Some(i) => {
                let key = self.bindings[i].1;
                self.record_of(key).state
            },
            None => KeyState::Idle,
        }
    }
}

/// Press and release events for a key that is not tracked change nothing.
pub proof fn lemma_untracked_key_ignored(v: InputMapView, key: Key)
    requires
        !v.records.contains_key(key),
    ensures
        v.pressed(key) == v,
        v.released(key) == v,
{
}

/// A key at rest whose press latch is clear, once pressed, reads as freshly
/// pressed after the first acknowledgement and as held after the second.
pub proof fn lemma_press_settles_in_two_ticks(v: InputMapView, action: Seq<char>)
    requires
        v.consistent(),
        v.bindings.contains_key(action),
        v.records[v.bindings[action]].state == KeyState::Idle,
        !v.records[v.bindings[action]].press_ack,
    ensures
        ({
            let once = v.pressed(v.bindings[action]).acknowledged();
            let twice = once.acknowledged();
            &&& once.state_of(action) == KeyState::New
            &&& once.state_of(action).is_pressed()
            &&& twice.state_of(action) == KeyState::Held
            &&& twice.state_of(action).is_pressed()
        }),
{
}

/// A held key whose release latch is clear, once released, reads as freshly
/// released at once and after the first acknowledgement, and as at rest after
/// the second.
pub proof fn lemma_release_settles_in_two_ticks(v: InputMapView, action: Seq<char>)
    requires
        v.consistent(),
        v.bindings.contains_key(action),
        v.records[v.bindings[action]].state == KeyState::Held,
        !v.records[v.bindings[action]].release_ack,
    ensures
        ({
            let now = v.released(v.bindings[action]);
            let once = now.acknowledged();
            let twice = once.acknowledged();
            &&& now.state_of(action) == KeyState::Released
            &&& once.state_of(action) == KeyState::Released
            &&& twice.state_of(action) == KeyState::Idle
        }),
{
}

/// Registering a key again puts it back at rest with both latches clear,
/// whatever its state was, for every action that names it.
pub proof fn lemma_register_resets(v: InputMapView, action: Seq<char>, key: Key, other: Seq<char>)
    requires
        v.consistent(),
    ensures
        v.registered(action, key).consistent(),
        v.registered(action, key).records[key] == KeyStateHistory::fresh(),
        v.registered(action, key).state_of(action) == KeyState::Idle,
        v.bindings.contains_key(other) && v.bindings[other] == key ==> v.registered(
            action,
            key,
        ).state_of(other) == KeyState::Idle,
{
}

/// Pressing a held key makes it fresh again and keeps both latches, so the
/// press latch left from the previous press decides whether one or two
/// acknowledgements settle it.
pub proof fn lemma_press_while_held(v: InputMapView, action: Seq<char>)
    requires
        v.consistent(),
        v.bindings.contains_key(action),
        v.records[v.bindings[action]].state == KeyState::Held,
    ensures
        ({
            let key = v.bindings[action];
            let h = v.records[key];
            let now = v.pressed(key);
            let once = now.acknowledged();
            let twice = once.acknowledged();
            &&& now.records[key] == h.with_state(KeyState::New)
            &&& now.state_of(action) == KeyState::New
            &&& h.press_ack ==> once.state_of(action) == KeyState::Held
            &&& !h.press_ack ==> once.state_of(action) == KeyState::New && twice.state_of(action)
                == KeyState::Held
        }),
{
}

/// Two actions that name the same key read the same state, and still name
/// one key after any press, release or acknowledgement, and after any
/// registration of a third name.
pub proof fn lemma_aliases_agree(
    v: InputMapView,
    a: Seq<char>,
    b: Seq<char>,
    key: Key,
    third: Seq<char>,
)
    requires
        v.consistent(),
        v.bindings.contains_key(a),
        v.bindings.contains_key(b),
        v.bindings[a] == v.bindings[b],
    ensures
        v.state_of(a) == v.state_of(b),
        v.pressed(key).bindings == v.bindings,
        v.released(key).bindings == v.bindings,
        v.acknowledged().bindings == v.bindings,
        third != a && third != b ==> ({
            let w = v.registered(third, key);
            w.bindings.contains_key(a) && w.bindings.contains_key(b) && w.bindings[a]
                == w.bindings[b]
        }),
{
}

} // verus!
