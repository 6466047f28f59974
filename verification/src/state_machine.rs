//! The animation state machine handed to the editor's preview: named states,
//! transitions between them, the state to start in, and the Lottie
//! composition they animate.
//!
//! Frame numbers, durations and coordinates are floating-point values in the
//! Lottie format. This library never computes with them; it carries each one
//! as the IEEE-754 bit pattern of its `f64` (`f64::to_bits`).
use vstd::prelude::*;

verus! {

/// How a state's animation behaves when it reaches its last frame.
#[derive(Clone, Copy, Debug, PartialEq, Eq)]
pub enum LoopBehavior {
    NoLoop,
    Loop,
    PingPong,
    Hold,
}

/// A named state of the animation.
#[derive(Clone, Debug, PartialEq)]
pub struct AnimationState {
    pub name: String,
    pub loop_behavior: LoopBehavior,
    /// Optional start and end frames within the composition (as `f64` bit patterns).
    pub frame_range: Option<(u64, u64)>,
}

/// The bit pattern of the `f64` value `0.0`.
pub const ZERO_BITS: u64 = 0u64;

/// The bit pattern of the `f64` value `1.0`.
pub const ONE_BITS: u64 = 0x3FF0_0000_0000_0000u64;

impl AnimationState {
    /// The frame a preview shows for this state: the start of its frame
    /// range, or frame `0.0` when it has none.
    pub fn preview_frame(&self) -> (f: u64)
        ensures
            f == match self.frame_range {
                Some(range) => range.0,
                None => ZERO_BITS,
            },
    {
        match self.frame_range {
            Some(range) => range.0,
            None => ZERO_BITS,
        }
    }
}

/// What makes a transition happen.
#[derive(Clone, Debug, PartialEq)]
pub enum Trigger {
    /// The current state has finished.
    OnFinish,
    /// The named input was received.
    OnInput(String),
}

/// A transition between two named states.
#[derive(Clone, Debug, PartialEq)]
pub struct Transition {
    pub from: String,
    pub to: String,
    pub trigger: Trigger,
    /// Duration of the interpolation, in frames (as an `f64` bit pattern).
    pub duration_frames: u64,
}

/// A number of the Lottie document: an integer, or a floating-point value
/// held as the bit pattern of its `f64`.
#[derive(Clone, Copy, Debug, PartialEq, Eq)]
pub enum Number {
    Int(i64),
    Float(u64),
}

/// A point of the composition (x, y).
#[derive(Clone, Copy, Debug, PartialEq, Eq)]
pub struct Point {
    pub x: Number,
    pub y: Number,
}

/// The size of a rectangle.
#[derive(Clone, Copy, Debug, PartialEq, Eq)]
pub struct Size {
    pub width: Number,
    pub height: Number,
}

/// A colour with its opacity, each channel between 0 and 1.
#[derive(Clone, Copy, Debug, PartialEq, Eq)]
pub struct Color {
    pub red: Number,
    pub green: Number,
    pub blue: Number,
    pub alpha: Number,
}

/// A shape layer of the composition: one rectangle with a solid fill.
#[derive(Clone, Debug, PartialEq)]
pub struct Layer {
    pub name: String,
    /// The layer's position.
    pub position: Point,
    /// The rectangle's size.
    pub size: Size,
    /// The fill colour.
    pub color: Color,
}

/// The layer that `add_layer` creates: at the origin, 24 by 100, filled white.
pub open spec fn fresh_layer(name: String) -> Layer {
    Layer {
        name,
        position: Point { x: Number::Int(0), y: Number::Int(0) },
        size: Size { width: Number::Int(24), height: Number::Int(100) },
        color: Color { red: Number::Int(1), green: Number::Int(1), blue: Number::Int(1), alpha: Number::Int(1) },
    }
}

/// A Lottie composition: its header and its layers, first to last.
#[derive(Clone, Debug, PartialEq)]
pub struct Composition {
    pub version: String,
    pub frame_rate: u32,
    pub in_point: u32,
    pub out_point: u32,
    pub width: u32,
    pub height: u32,
    pub name: String,
    pub layers: Vec<Layer>,
}

impl Composition {
    /// The empty composition a builder starts from: Lottie 5.5.2, 30 frames per
    /// second, frames 0 to 100, 800 by 600, named "Samantha Animation".
    pub fn new() -> (c: Self)
        ensures
            c.version@ == "5.5.2"@,
            c.frame_rate == 30,
            c.in_point == 0,
            c.out_point == 100,
            c.width == 800,
            c.height == 600,
            c.name@ == "Samantha Animation"@,
            c.layers@.len() == 0,
    {
        Composition {
            version: String::from_str("5.5.2"),
            frame_rate: 30,
            in_point: 0,
            out_point: 100,
            width: 800,
            height: 600,
            name: String::from_str("Samantha Animation"),
            layers: Vec::new(),
        }
    }

    /// Appends a fresh layer named `name` and returns its index.
    pub fn add_layer(&mut self, name: String) -> (index: usize)
        ensures
            index == old(self).layers@.len(),
            final(self).layers@ == old(self).layers@.push(fresh_layer(name)),
            same_header(*old(self), *final(self)),
    {
        let index = self.layers.len();
        self.layers.push(
            Layer {
                name,
                position: Point { x: Number::Int(0), y: Number::Int(0) },
                size: Size { width: Number::Int(24), height: Number::Int(100) },
                color: Color { red: Number::Int(1), green: Number::Int(1), blue: Number::Int(1), alpha: Number::Int(1) },
            },
        );
        index
    }

    /// Moves layer `index` to (`x`, `y`); no other layer changes.
    pub fn set_position(&mut self, index: usize, x: u64, y: u64)
        requires
            index < old(self).layers@.len(),
        ensures
            final(self).layers@.len() == old(self).layers@.len(),
            final(self).layers@[index as int].position == (Point { x: Number::Float(x), y: Number::Float(y) }),
            final(self).layers@[index as int].name == old(self).layers@[index as int].name,
            final(self).layers@[index as int].size == old(self).layers@[index as int].size,
            final(self).layers@[index as int].color == old(self).layers@[index as int].color,
            forall|j: int|
                0 <= j < old(self).layers@.len() && j != index ==> #[trigger] final(self).layers@[j] == old(self).layers@[j],
            final(self).layers@ == old(self).layers@.update(
                index as int,
                with_position(old(self).layers@[index as int], x, y),
            ),
            same_header(*old(self), *final(self)),
    {
        let layer = Layer {
            name: self.layers[index].name.clone(),
            position: Point { x: Number::Float(x), y: Number::Float(y) },
            size: self.layers[index].size,
            color: self.layers[index].color,
        };
        self.layers.set(index, layer);
    }

    /// Resizes the rectangle of layer `index` to `w` by `h`; no other layer changes.
    pub fn set_size(&mut self, index: usize, w: u64, h: u64)
        requires
            index < old(self).layers@.len(),
        ensures
            final(self).layers@.len() == old(self).layers@.len(),
            final(self).layers@[index as int].size == (Size { width: Number::Float(w), height: Number::Float(h) }),
            final(self).layers@[index as int].name == old(self).layers@[index as int].name,
            final(self).layers@[index as int].position == old(self).layers@[index as int].position,
            final(self).layers@[index as int].color == old(self).layers@[index as int].color,
            forall|j: int|
                0 <= j < old(self).layers@.len() && j != index ==> #[trigger] final(self).layers@[j] == old(self).layers@[j],
            final(self).layers@ == old(self).layers@.update(
                index as int,
                with_size(old(self).layers@[index as int], w, h),
            ),
            same_header(*old(self), *final(self)),
    {
        let layer = Layer {
            name: self.layers[index].name.clone(),
            position: self.layers[index].position,
            size: Size { width: Number::Float(w), height: Number::Float(h) },
            color: self.layers[index].color,
        };
        self.layers.set(index, layer);
    }

    /// Fills layer `index` with the opaque colour (`r`, `g`, `b`); no other layer changes.
    pub fn set_color(&mut self, index: usize, r: u64, g: u64, b: u64)
        requires
            index < old(self).layers@.len(),
        ensures
            final(self).layers@.len() == old(self).layers@.len(),
            final(self).layers@[index as int].color == (Color { red: Number::Float(r), green: Number::Float(g), blue: Number::Float(b), alpha: Number::Float(ONE_BITS) }),
            final(self).layers@[index as int].name == old(self).layers@[index as int].name,
            final(self).layers@[index as int].position == old(self).layers@[index as int].position,
            final(self).layers@[index as int].size == old(self).layers@[index as int].size,
            forall|j: int|
                0 <= j < old(self).layers@.len() && j != index ==> #[trigger] final(self).layers@[j] == old(self).layers@[j],
            final(self).layers@ == old(self).layers@.update(
                index as int,
                with_color(old(self).layers@[index as int], r, g, b),
            ),
            same_header(*old(self), *final(self)),
    {
        let layer = Layer {
            name: self.layers[index].name.clone(),
            position: self.layers[index].position,
            size: self.layers[index].size,
            color: Color { red: Number::Float(r), green: Number::Float(g), blue: Number::Float(b), alpha: Number::Float(ONE_BITS) },
        };
        self.layers.set(index, layer);
    }
}

/// Two compositions with the same header (everything but the layers).
pub open spec fn same_header(a: Composition, b: Composition) -> bool {
    &&& a.version == b.version
    &&& a.name == b.name
    &&& a.frame_rate == b.frame_rate
    &&& a.in_point == b.in_point
    &&& a.out_point == b.out_point
    &&& a.width == b.width
    &&& a.height == b.height
}

/// `l` moved to (`x`, `y`).
pub open spec fn with_position(l: Layer, x: u64, y: u64) -> Layer {
    Layer { name: l.name, position: Point { x: Number::Float(x), y: Number::Float(y) }, size: l.size, color: l.color }
}

/// `l` resized to `w` by `h`.
pub open spec fn with_size(l: Layer, w: u64, h: u64) -> Layer {
    Layer { name: l.name, position: l.position, size: Size { width: Number::Float(w), height: Number::Float(h) }, color: l.color }
}

/// `l` filled with the opaque colour (`r`, `g`, `b`).
pub open spec fn with_color(l: Layer, r: u64, g: u64, b: u64) -> Layer {
    Layer {
        name: l.name,
        position: l.position,
        size: l.size,
        color: Color { red: Number::Float(r), green: Number::Float(g), blue: Number::Float(b), alpha: Number::Float(ONE_BITS) },
    }
}

/// Moving a layer puts it exactly at (`x`, `y`) and keeps its name, size and
/// colour.
pub proof fn lemma_with_position(l: Layer, x: u64, y: u64)
    ensures
        with_position(l, x, y).position.x == Number::Float(x),
        with_position(l, x, y).position.y == Number::Float(y),
        with_position(l, x, y).name == l.name,
        with_position(l, x, y).size == l.size,
        with_position(l, x, y).color == l.color,
{
}

/// Resizing a layer gives its rectangle width exactly `w` and height exactly
/// `h`, whichever is larger, and keeps its name, position and colour; so
/// resizing to `w` by `h` and to `h` by `w` differ whenever `w != h`.
pub proof fn lemma_with_size(l: Layer, w: u64, h: u64)
    ensures
        with_size(l, w, h).size.width == Number::Float(w),
        with_size(l, w, h).size.height == Number::Float(h),
        with_size(l, w, h).name == l.name,
        with_size(l, w, h).position == l.position,
        with_size(l, w, h).color == l.color,
        w != h ==> with_size(l, w, h).size != with_size(l, h, w).size,
{
}

/// Filling a layer makes its red, green and blue channels exactly `r`, `g`
/// and `b`, and its alpha 1.0, and keeps its name, position and size; so fills
/// that differ in any channel give different colours.
pub proof fn lemma_with_color(l: Layer, r: u64, g: u64, b: u64, r2: u64, g2: u64, b2: u64)
    ensures
        with_color(l, r, g, b).color.red == Number::Float(r),
        with_color(l, r, g, b).color.green == Number::Float(g),
        with_color(l, r, g, b).color.blue == Number::Float(b),
        with_color(l, r, g, b).color.alpha == Number::Float(ONE_BITS),
        with_color(l, r, g, b).name == l.name,
        with_color(l, r, g, b).position == l.position,
        with_color(l, r, g, b).size == l.size,
        (r, g, b) != (r2, g2, b2) ==> with_color(l, r, g, b).color != with_color(l, r2, g2, b2).color,
{
}

/// The states by name: each state under its name, a later state with the
/// same name taking the place of an earlier one.
pub open spec fn table_of(states: Seq<AnimationState>) -> Map<Seq<char>, AnimationState>
    decreases states.len(),
{
    if states.len() == 0 {
        Map::empty()
    } else {
        table_of(states.drop_last()).insert(states.last().name@, states.last())
    }
}

/// No two states share a name.
pub open spec fn names_distinct(states: Seq<AnimationState>) -> bool {
    forall|i: int, j: int|
        0 <= i < j < states.len() ==> #[trigger] states[i].name@ != #[trigger] states[j].name@
}

/// Where the names are distinct, the state that the table holds under a
/// state's name is that state, and the table holds nothing under any other
/// name.
pub proof fn lemma_table_of_distinct(states: Seq<AnimationState>, name: Seq<char>)
    requires
        names_distinct(states),
    ensures
        table_of(states).dom().contains(name) <==> exists|i: int|
            0 <= i < states.len() && #[trigger] states[i].name@ == name,
        forall|i: int|
            0 <= i < states.len() && #[trigger] states[i].name@ == name ==> table_of(states)[name]
                == states[i],
    decreases states.len(),
{
    if states.len() > 0 {
        let rest = states.drop_last();
        assert forall|a: int, b: int| 0 <= a < b < rest.len() implies #[trigger] rest[a].name@
            != #[trigger] rest[b].name@ by {
            assert(rest[a] == states[a] && rest[b] == states[b]);
        }
        lemma_table_of_distinct(rest, name);
        let n = states.len() - 1;
        if table_of(states).dom().contains(name) && name != states.last().name@ {
            let i = choose|i: int| 0 <= i < rest.len() && #[trigger] rest[i].name@ == name;
            assert(states[i].name@ == name);
        }
        assert forall|i: int| 0 <= i < states.len() && #[trigger] states[i].name@ == name implies table_of(
            states,
        )[name] == states[i] by {
            if i < n {
                assert(rest[i] == states[i]);
                assert(states[i].name@ != states[n].name@);
            }
        }
        if exists|i: int| 0 <= i < states.len() && #[trigger] states[i].name@ == name {
            let i = choose|i: int| 0 <= i < states.len() && #[trigger] states[i].name@ == name;
            if i < n {
                assert(rest[i] == states[i]);
            }
        }
    }
}

/// Replacing a state by one of the same name changes the table only under that name.
pub proof fn lemma_table_of_update(states: Seq<AnimationState>, i: int, st: AnimationState)
    requires
        names_distinct(states),
        0 <= i < states.len(),
        st.name@ == states[i].name@,
    ensures
        table_of(states.update(i, st)) == table_of(states).insert(st.name@, st),
        names_distinct(states.update(i, st)),
    decreases states.len(),
{
    let n = states.len() - 1;
    let updated = states.update(i, st);
    assert(updated.drop_last() =~= if i == n {
        states.drop_last()
    } else {
        states.drop_last().update(i, st)
    });
    if i < n {
        assert forall|a: int, b: int| 0 <= a < b < states.drop_last().len() implies #[trigger] states.drop_last()[a].name@
            != #[trigger] states.drop_last()[b].name@ by {
            assert(states.drop_last()[a] == states[a] && states.drop_last()[b] == states[b]);
        }
        lemma_table_of_update(states.drop_last(), i, st);
        assert(states[i].name@ != states[n].name@);
        assert(table_of(updated) =~= table_of(states).insert(st.name@, st));
    } else {
        assert(table_of(updated) =~= table_of(states).insert(st.name@, st));
    }
    assert forall|a: int, b: int| 0 <= a < b < updated.len() implies #[trigger] updated[a].name@
        != #[trigger] updated[b].name@ by {
        assert(states[a].name@ != states[b].name@);
    }
}

/// The animation state machine of a preview.
#[derive(Clone, Debug, PartialEq)]
pub struct SAM {
    /// The states, each under its own name.
    pub states: Vec<AnimationState>,
    /// Transitions between states.
    pub transitions: Vec<Transition>,
    /// The name of the state to start in.
    pub entry_state: String,
    /// The Lottie composition, when there is one.
    pub lottie: Option<Composition>,
}

impl Default for SAM {
    /// The empty machine: no states, no transitions, no entry state, no composition.
    fn default() -> (m: Self)
        ensures
            m.states@.len() == 0,
            m.transitions@.len() == 0,
            m.entry_state@.len() == 0,
            m.lottie is None,
    {
        SAM { states: Vec::new(), transitions: Vec::new(), entry_state: String::new(), lottie: None }
    }
}

impl SAM {
    /// The first state named `name`, if there is one.
    pub fn state_named(&self, name: &String) -> (r: Option<&AnimationState>)
        ensures
            match r {
                Some(st) => exists|i: int|
                    0 <= i < self.states@.len() && self.states@[i] == *st && st.name@ == name@
                        && forall|j: int| 0 <= j < i ==> #[trigger] self.states@[j].name@ != name@,
                None => forall|j: int|
                    0 <= j < self.states@.len() ==> #[trigger] self.states@[j].name@ != name@,
            },
    {
        let n = self.states.len();
        let mut i: usize = 0;
        while i < n
            invariant
                n == self.states@.len(),
                i <= n,
                forall|j: int| 0 <= j < i ==> #[trigger] self.states@[j].name@ != name@,
            decreases n - i,
        {
            if self.states[i].name.eq(name) {
                return Some(&self.states[i]);
            }
            i = i + 1;
        }
        None
    }
}

/// The step that a visual state machine shows.
pub struct VisualStateMachine {
    pub current_step: usize,
}

impl VisualStateMachine {
    /// A machine at step 0.
    pub fn new() -> (m: Self)
        ensures
            m.current_step == 0,
    {
        VisualStateMachine { current_step: 0 }
    }

    /// Receives the algorithm's next state; the shown step stays as it is.
    pub fn transition_to(&mut self, next_state: crate::algorithm::AlgorithmState)
        ensures
            final(self).current_step == old(self).current_step,
    {
    }
}

} // verus!
