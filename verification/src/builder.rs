//! The builder that a user script drives to describe an animation: it
//! collects the states of the machine, the layers of the composition and a
//! log of named events, and finally yields the state machine.
use vstd::prelude::*;
use vstd::string::*;

use crate::state_machine::{
    lemma_table_of_distinct, lemma_table_of_update, names_distinct, table_of, AnimationState,
    Composition, LoopBehavior, Transition, SAM, fresh_layer, same_header, with_position, with_size,
    with_color, Color, Number, Point, Size, ONE_BITS,
};

verus! {

/// One field of a log entry: a keyword and the text of its value.
#[derive(Clone, Debug, PartialEq)]
pub struct LogField {
    pub key: String,
    pub value: String,
}

/// A named event that the script logged, with its fields.
#[derive(Clone, Debug, PartialEq)]
pub struct LogEntry {
    pub name: String,
    pub data: Vec<LogField>,
}

/// The name of the state that `add_state` makes for a step count: "step_"
/// followed by the count's text, "0" when there is none.
pub open spec fn step_name(steps: Option<String>) -> Seq<char> {
    "step_"@ + match steps {
        Some(s) => s@,
        None => "0"@,
    }
}

/// The name of a step's state is "step_" followed by the whole text of the
/// step count: five characters longer than the count, ending in the count.
pub proof fn lemma_step_name(steps: String)
    ensures
        step_name(Some(steps)).len() == 5 + steps@.len(),
        step_name(Some(steps)).subrange(0, 5) == "step_"@,
        step_name(Some(steps)).subrange(5, 5 + steps@.len() as int) == steps@,
        step_name(None) == "step_0"@,
{
    reveal_strlit("step_");
    reveal_strlit("step_0");
    reveal_strlit("0");
    assert(step_name(Some(steps)).subrange(0, 5) =~= "step_"@);
    assert(step_name(Some(steps)).subrange(5, 5 + steps@.len() as int) =~= steps@);
    assert(step_name(None) =~= "step_0"@);
}

/// Different step counts name different states.
pub proof fn lemma_step_names_differ(a: String, b: String)
    requires
        a@ != b@,
    ensures
        step_name(Some(a)) != step_name(Some(b)),
{
    lemma_step_name(a);
    lemma_step_name(b);
    if step_name(Some(a)) == step_name(Some(b)) {
        assert(a@ =~= b@);
    }
}

/// `st` is the state that `add_state` makes under `name` at `frame`: it holds
/// at that single frame.
pub open spec fn is_step_state(st: AnimationState, name: Seq<char>, frame: u64) -> bool {
    &&& st.name@ == name
    &&& st.loop_behavior == LoopBehavior::Hold
    &&& st.frame_range == Some((frame, frame))
}

/// A table of states is empty exactly when there are no states.
proof fn lemma_table_empty(states: Seq<AnimationState>)
    ensures
        (table_of(states) == Map::<Seq<char>, AnimationState>::empty()) <==> states.len() == 0,
{
    if states.len() > 0 {
        assert(table_of(states).dom().contains(states.last().name@));
    }
}

/// The states collected so far and the name of the entry state: no two
/// states share a name, and once there is a state the entry names one.
#[derive(Debug)]
struct StateTable {
    states: Vec<AnimationState>,
    entry: String,
}

impl StateTable {
    #[verifier::type_invariant]
    closed spec fn well_formed(self) -> bool {
        &&& names_distinct(self.states@)
        &&& self.states@.len() > 0 ==> table_of(self.states@).dom().contains(self.entry@)
    }

    closed spec fn table(&self) -> Map<Seq<char>, AnimationState> {
        table_of(self.states@)
    }

    closed spec fn entry_name(&self) -> Seq<char> {
        self.entry@
    }

    fn new() -> (t: Self)
        ensures
            t.table() == Map::<Seq<char>, AnimationState>::empty(),
            t.entry_name().len() == 0,
    {
        let t = StateTable { states: Vec::new(), entry: String::new() };
        assert(t.table() =~= Map::<Seq<char>, AnimationState>::empty());
        t
    }

    /// Puts `st` under its name, in place of any state of that name; the
    /// first state put becomes the entry state.
    fn put(&mut self, st: AnimationState)
        ensures
            final(self).table() == old(self).table().insert(st.name@, st),
            old(self).table() == Map::<Seq<char>, AnimationState>::empty() ==> final(self).entry_name()
                == st.name@,
            old(self).table() != Map::<Seq<char>, AnimationState>::empty() ==> final(self).entry_name()
                == old(self).entry_name(),
            final(self).table().dom().contains(final(self).entry_name()),
    {
        proof {
            use_type_invariant(&*self);
            lemma_table_empty(self.states@);
        }
        let ghost old_states = self.states@;
        let ghost name_view = st.name@;
        let mut states: Vec<AnimationState> = Vec::new();
        std::mem::swap(&mut states, &mut self.states);
        let n = states.len();
        if n == 0 {
            self.entry = st.name.clone();
        }
        let mut i: usize = 0;
        while i < n
            invariant
                n == states@.len(),
                states@ == old_states,
                name_view == st.name@,
                i <= n,
                forall|j: int| 0 <= j < i ==> #[trigger] old_states[j].name@ != name_view,
            ensures
                i <= n,
                forall|j: int| 0 <= j < i ==> #[trigger] old_states[j].name@ != name_view,
                i < n ==> old_states[i as int].name@ == name_view,
            decreases n - i,
        {
            if states[i].name.eq(&st.name) {
                break;
            }
            i = i + 1;
        }
        if i < n {
            proof {
                lemma_table_of_update(old_states, i as int, st);
            }
            states.set(i, st);
        } else {
            states.push(st);
            proof {
                assert(states@.drop_last() =~= old_states);
                assert forall|a: int, b: int| 0 <= a < b < states@.len() implies #[trigger] states@[a].name@
                    != #[trigger] states@[b].name@ by {
                    if b == n {
                        assert(old_states[a].name@ != name_view);
                    } else {
                        assert(old_states[a].name@ != old_states[b].name@);
                    }
                }
            }
        }
        proof {
            lemma_table_empty(states@);
            assert(table_of(states@) =~= table_of(old_states).insert(name_view, st));
        }
        self.states = states;
    }

    fn into_parts(self) -> (parts: (Vec<AnimationState>, String))
        ensures
            table_of(parts.0@) == self.table(),
            names_distinct(parts.0@),
            parts.1@ == self.entry_name(),
    {
        proof {
            use_type_invariant(&self);
        }
        (self.states, self.entry)
    }
}

/// Collects the states, transitions, composition and log of an animation.
#[derive(Debug)]
pub struct SamBuilder {
    states: StateTable,
    transitions: Vec<Transition>,
    composition: Composition,
    logs: Vec<LogEntry>,
}

impl SamBuilder {
    /// The states collected so far, by name.
    pub closed spec fn state_table(&self) -> Map<Seq<char>, AnimationState> {
        self.states.table()
    }

    /// The name of the entry state: that of the first state added, empty
    /// while there is none.
    pub closed spec fn entry(&self) -> Seq<char> {
        self.states.entry_name()
    }

    /// The transitions, first to last.
    pub closed spec fn transitions(&self) -> Seq<Transition> {
        self.transitions@
    }

    /// The composition being built.
    pub closed spec fn composition(&self) -> Composition {
        self.composition
    }

    /// The log entries, first to last.
    pub closed spec fn log_entries(&self) -> Seq<LogEntry> {
        self.logs@
    }

    /// An empty builder over the empty composition.
    pub fn new() -> (b: Self)
        ensures
            b.state_table() == Map::<Seq<char>, AnimationState>::empty(),
            b.entry().len() == 0,
            b.log_entries().len() == 0,
            b.transitions().len() == 0,
            b.composition().version@ == "5.5.2"@,
            b.composition().frame_rate == 30,
            b.composition().in_point == 0,
            b.composition().out_point == 100,
            b.composition().width == 800,
            b.composition().height == 600,
            b.composition().name@ == "Samantha Animation"@,
            b.composition().layers@.len() == 0,
    {
        SamBuilder {
            states: StateTable::new(),
            transitions: Vec::new(),
            composition: Composition::new(),
            logs: Vec::new(),
        }
    }

    /// Adds the state of a step: named "step_" and the step count (its text,
    /// "0" when the script gave none), holding at `frame`. A state of the same
    /// name is replaced. The first state added becomes the entry state.
    pub fn add_state(&mut self, steps: Option<String>, frame: u64)
        ensures
            final(self).state_table().dom() == old(self).state_table().dom().insert(
                step_name(steps),
            ),
            is_step_state(final(self).state_table()[step_name(steps)], step_name(steps), frame),
            steps matches Some(s) ==> (final(self).state_table().dom().contains("step_"@ + s@)
                && final(self).state_table()["step_"@ + s@].name@ == "step_"@ + s@
                && final(self).state_table()["step_"@ + s@].frame_range == Some((frame, frame))),
            steps is None ==> (final(self).state_table().dom().contains("step_0"@)
                && final(self).state_table()["step_0"@].frame_range == Some((frame, frame))),
            forall|k: Seq<char>|
                k != step_name(steps) && #[trigger] old(self).state_table().dom().contains(k)
                    ==> final(self).state_table()[k] == old(self).state_table()[k],
            old(self).state_table() == Map::<Seq<char>, AnimationState>::empty() ==> final(self).entry()
                == step_name(steps),
            old(self).state_table() != Map::<Seq<char>, AnimationState>::empty() ==> final(self).entry()
                == old(self).entry(),
            final(self).state_table().dom().contains(final(self).entry()),
            final(self).log_entries() == old(self).log_entries(),
            final(self).transitions() == old(self).transitions(),
            final(self).composition() == old(self).composition(),
    {
        let mut name = String::from_str("step_");
        match steps {
            Some(s) => name.append(s.as_str()),
            None => name.append("0"),
        }
        proof {
            reveal_strlit("step_");
            reveal_strlit("0");
            reveal_strlit("step_0");
            assert("step_"@ + "0"@ =~= "step_0"@);
        }
        let st = AnimationState {
            name,
            loop_behavior: LoopBehavior::Hold,
            frame_range: Some((frame, frame)),
        };
        self.states.put(st);
    }

    /// Appends `entry` to the log.
    pub fn log(&mut self, entry: LogEntry)
        ensures
            final(self).log_entries() == old(self).log_entries().push(entry),
            final(self).state_table() == old(self).state_table(),
            final(self).entry() == old(self).entry(),
            final(self).transitions() == old(self).transitions(),
            final(self).composition() == old(self).composition(),
    {
        self.logs.push(entry);
    }

    /// The composition being built.
    pub fn lottie(&self) -> (c: &Composition)
        ensures
            *c == self.composition(),
    {
        &self.composition
    }

    /// Appends a fresh layer named `name` to the composition and returns its index.
    pub fn add_layer(&mut self, name: String) -> (index: usize)
        ensures
            index == old(self).composition().layers@.len(),
            final(self).composition().layers@ == old(self).composition().layers@.push(
                fresh_layer(name),
            ),
            same_header(old(self).composition(), final(self).composition()),
            final(self).state_table() == old(self).state_table(),
            final(self).entry() == old(self).entry(),
            final(self).transitions() == old(self).transitions(),
            final(self).log_entries() == old(self).log_entries(),
    {
        self.composition.add_layer(name)
    }

    /// Moves layer `index` to (`x`, `y`); nothing else changes.
    pub fn set_position(&mut self, index: usize, x: u64, y: u64)
        requires
            index < old(self).composition().layers@.len(),
        ensures
            final(self).composition().layers@.len() == old(self).composition().layers@.len(),
            final(self).composition().layers@[index as int].position == (Point { x: Number::Float(x), y: Number::Float(y) }),
            final(self).composition().layers@[index as int].name == old(self).composition().layers@[index as int].name,
            final(self).composition().layers@[index as int].size == old(self).composition().layers@[index as int].size,
            final(self).composition().layers@[index as int].color == old(self).composition().layers@[index as int].color,
            forall|j: int|
                0 <= j < old(self).composition().layers@.len() && j != index ==> #[trigger] final(self).composition().layers@[j] == old(self).composition().layers@[j],
            final(self).composition().layers@ == old(self).composition().layers@.update(
                index as int,
                with_position(old(self).composition().layers@[index as int], x, y),
            ),
            same_header(old(self).composition(), final(self).composition()),
            final(self).state_table() == old(self).state_table(),
            final(self).entry() == old(self).entry(),
            final(self).transitions() == old(self).transitions(),
            final(self).log_entries() == old(self).log_entries(),
    {
        self.composition.set_position(index, x, y)
    }

    /// Resizes the rectangle of layer `index` to `w` by `h`; nothing else changes.
    pub fn set_size(&mut self, index: usize, w: u64, h: u64)
        requires
            index < old(self).composition().layers@.len(),
        ensures
            final(self).composition().layers@.len() == old(self).composition().layers@.len(),
            final(self).composition().layers@[index as int].size == (Size { width: Number::Float(w), height: Number::Float(h) }),
            final(self).composition().layers@[index as int].name == old(self).composition().layers@[index as int].name,
            final(self).composition().layers@[index as int].position == old(self).composition().layers@[index as int].position,
            final(self).composition().layers@[index as int].color == old(self).composition().layers@[index as int].color,
            forall|j: int|
                0 <= j < old(self).composition().layers@.len() && j != index ==> #[trigger] final(self).composition().layers@[j] == old(self).composition().layers@[j],
            final(self).composition().layers@ == old(self).composition().layers@.update(
                index as int,
                with_size(old(self).composition().layers@[index as int], w, h),
            ),
            same_header(old(self).composition(), final(self).composition()),
            final(self).state_table() == old(self).state_table(),
            final(self).entry() == old(self).entry(),
            final(self).transitions() == old(self).transitions(),
            final(self).log_entries() == old(self).log_entries(),
    {
        self.composition.set_size(index, w, h)
    }

    /// Fills layer `index` with the opaque colour (`r`, `g`, `b`); nothing else changes.
    pub fn set_color(&mut self, index: usize, r: u64, g: u64, b: u64)
        requires
            index < old(self).composition().layers@.len(),
        ensures
            final(self).composition().layers@.len() == old(self).composition().layers@.len(),
            final(self).composition().layers@[index as int].color == (Color { red: Number::Float(r), green: Number::Float(g), blue: Number::Float(b), alpha: Number::Float(ONE_BITS) }),
            final(self).composition().layers@[index as int].name == old(self).composition().layers@[index as int].name,
            final(self).composition().layers@[index as int].position == old(self).composition().layers@[index as int].position,
            final(self).composition().layers@[index as int].size == old(self).composition().layers@[index as int].size,
            forall|j: int|
                0 <= j < old(self).composition().layers@.len() && j != index ==> #[trigger] final(self).composition().layers@[j] == old(self).composition().layers@[j],
            final(self).composition().layers@ == old(self).composition().layers@.update(
                index as int,
                with_color(old(self).composition().layers@[index as int], r, g, b),
            ),
            same_header(old(self).composition(), final(self).composition()),
            final(self).state_table() == old(self).state_table(),
            final(self).entry() == old(self).entry(),
            final(self).transitions() == old(self).transitions(),
            final(self).log_entries() == old(self).log_entries(),
    {
        self.composition.set_color(index, r, g, b)
    }

    /// The log entries, first to last.
    pub fn logs(&self) -> (r: &Vec<LogEntry>)
        ensures
            r@ == self.log_entries(),
    {
        &self.logs
    }

    /// The finished state machine: the states collected, under distinct
    /// names; the transitions; the entry state; and the composition.
    pub fn into_sam(self) -> (sam: SAM)
        ensures
            table_of(sam.states@) == self.state_table(),
            names_distinct(sam.states@),
            sam.entry_state@ == self.entry(),
            sam.transitions@ == self.transitions(),
            sam.lottie == Some(self.composition()),
    {
        let (states, entry_state) = self.states.into_parts();
        SAM { states, transitions: self.transitions, entry_state, lottie: Some(self.composition) }
    }
}

/// After the script's code has run for an animation: a failure ends the run
/// with the empty machine; success goes on to the script's builders.
pub fn sam_after_code(result: Result<(), String>) -> (r: Option<SAM>)
    ensures
        result is Ok ==> r is None,
        result is Err ==> (r matches Some(sam) && sam.states@.len() == 0 && sam.transitions@.len() == 0
            && sam.entry_state@.len() == 0 && sam.lottie is None),
{
    match result {
        Ok(_) => None,
        Err(_) => Some(SAM::default()),
    }
}

/// A state that a builder holds under a name is the one that the finished
/// machine's lookup by that name finds.
pub proof fn lemma_lookup_finds_added_state(sam: SAM, name: Seq<char>)
    requires
        names_distinct(sam.states@),
        table_of(sam.states@).dom().contains(name),
    ensures
        exists|i: int|
            0 <= i < sam.states@.len() && #[trigger] sam.states@[i].name@ == name && sam.states@[i]
                == table_of(sam.states@)[name],
{
    lemma_table_of_distinct(sam.states@, name);
    let i = choose|i: int| 0 <= i < sam.states@.len() && #[trigger] sam.states@[i].name@ == name;
    assert(sam.states@[i] == table_of(sam.states@)[name]);
}

} // verus!
