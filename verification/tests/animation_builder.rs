use sublate::algorithm::AlgorithmState;
use sublate::builder::{sam_after_code, LogEntry, LogField, SamBuilder};
use sublate::python_vm::PythonVM;
use sublate::state_machine::{
    AnimationState, Color, Composition, LoopBehavior, Number, Point, Size, VisualStateMachine, SAM,
};

fn bits(x: f64) -> u64 {
    x.to_bits()
}

#[test]
fn test_python_lottie_conversion() {
    // The script: add a layer "test-layer", move it to (10.0, 20.0), and add
    // the state of step 1 at frame 30.0.
    let mut builder = SamBuilder::new();
    let layer = builder.add_layer("test-layer".to_string());
    builder.set_position(layer, bits(10.0), bits(20.0));
    builder.add_state(Some("1".to_string()), bits(30.0));

    let layers = &builder.lottie().layers;
    assert_eq!(layers.len(), 1);
    assert_eq!(layers[0].name, "test-layer");
    let pos = layers[0].position;
    assert_eq!(pos.x, Number::Float(bits(10.0)));
    assert_eq!(pos.y, Number::Float(bits(20.0)));

    let sam = builder.into_sam();
    let state = sam.state_named(&"step_1".to_string()).unwrap();
    assert_eq!(state.frame_range, Some((bits(30.0), bits(30.0))));
    let (a, b) = state.frame_range.unwrap();
    assert_eq!((f64::from_bits(a), f64::from_bits(b)), (30.0, 30.0));
}

#[test]
fn new_builder_holds_the_template_composition() {
    let b = SamBuilder::new();
    let c = b.lottie();
    assert_eq!(c.version, "5.5.2");
    assert_eq!((c.frame_rate, c.in_point, c.out_point, c.width, c.height), (30, 0, 100, 800, 600));
    assert_eq!(c.name, "Samantha Animation");
    assert!(c.layers.is_empty());
    assert!(b.logs().is_empty());
    let sam = b.into_sam();
    assert!(sam.states.is_empty());
    assert_eq!(sam.entry_state, "");
}

#[test]
fn first_added_state_is_the_entry_state() {
    let mut b = SamBuilder::new();
    b.add_state(Some("3".to_string()), bits(1.0));
    b.add_state(None, bits(2.0));
    b.add_state(Some("5".to_string()), bits(3.0));
    let sam = b.into_sam();
    assert_eq!(sam.entry_state, "step_3");
    assert_eq!(sam.states.len(), 3);
    let st0 = sam.state_named(&"step_0".to_string()).unwrap();
    assert_eq!(
        *st0,
        AnimationState {
            name: "step_0".to_string(),
            loop_behavior: LoopBehavior::Hold,
            frame_range: Some((bits(2.0), bits(2.0)))
        }
    );
}

#[test]
fn state_with_same_name_is_replaced() {
    let mut b = SamBuilder::new();
    b.add_state(Some("1".to_string()), bits(5.0));
    b.add_state(Some("2".to_string()), bits(6.0));
    b.add_state(Some("1".to_string()), bits(7.0));
    let sam = b.into_sam();
    assert_eq!(sam.states.len(), 2);
    assert_eq!(sam.entry_state, "step_1");
    assert_eq!(sam.state_named(&"step_1".to_string()).unwrap().frame_range, Some((bits(7.0), bits(7.0))));
    assert!(sam.state_named(&"step_9".to_string()).is_none());
}

#[test]
fn layer_edits_touch_only_their_layer() {
    let mut b = SamBuilder::new();
    assert_eq!(b.add_layer("a".to_string()), 0);
    assert_eq!(b.add_layer("b".to_string()), 1);
    b.set_size(1, bits(50.0), bits(60.0));
    b.set_color(1, bits(0.5), bits(0.25), bits(0.0));
    let c = b.lottie();
    assert_eq!(c.layers[0].size, Size { width: Number::Int(24), height: Number::Int(100) });
    assert_eq!(c.layers[0].position, Point { x: Number::Int(0), y: Number::Int(0) });
    assert_eq!(
        c.layers[0].color,
        Color { red: Number::Int(1), green: Number::Int(1), blue: Number::Int(1), alpha: Number::Int(1) }
    );
    assert_eq!(c.layers[1].name, "b");
    assert_eq!(c.layers[1].size, Size { width: Number::Float(bits(50.0)), height: Number::Float(bits(60.0)) });
    assert_eq!(
        c.layers[1].color,
        Color {
            red: Number::Float(bits(0.5)),
            green: Number::Float(bits(0.25)),
            blue: Number::Float(bits(0.0)),
            alpha: Number::Float(bits(1.0)),
        }
    );
}

#[test]
fn composition_edits_directly() {
    let mut c = Composition::new();
    let i = c.add_layer("only".to_string());
    c.set_position(i, bits(-1.5), bits(2.5));
    assert_eq!(c.layers[0].position, Point { x: Number::Float(bits(-1.5)), y: Number::Float(bits(2.5)) });
}

#[test]
fn log_entries_are_kept_in_order() {
    let mut b = SamBuilder::new();
    b.log(LogEntry { name: "swap".to_string(), data: vec![LogField { key: "i".to_string(), value: "1".to_string() }] });
    b.log(LogEntry { name: "done".to_string(), data: vec![] });
    let names: Vec<&str> = b.logs().iter().map(|e| e.name.as_str()).collect();
    assert_eq!(names, vec!["swap", "done"]);
    assert_eq!(b.logs()[0].data[0].value, "1");
}

#[test]
fn default_machine_is_empty() {
    let sam = SAM::default();
    assert!(sam.states.is_empty());
    assert!(sam.transitions.is_empty());
    assert_eq!(sam.entry_state, "");
    assert!(sam.lottie.is_none());
}

#[test]
fn preview_frame_is_range_start_or_zero() {
    let st = AnimationState { name: "s".to_string(), loop_behavior: LoopBehavior::Loop, frame_range: Some((bits(4.0), bits(9.0))) };
    assert_eq!(f64::from_bits(st.preview_frame()), 4.0);
    let st = AnimationState { name: "s".to_string(), loop_behavior: LoopBehavior::NoLoop, frame_range: None };
    assert_eq!(f64::from_bits(st.preview_frame()), 0.0);
}

#[test]
fn visual_state_machine_starts_at_zero_and_keeps_its_step() {
    let mut m = VisualStateMachine::new();
    assert_eq!(m.current_step, 0);
    m.current_step = 3;
    m.transition_to(AlgorithmState::Stepping(4));
    assert_eq!(m.current_step, 3);
    let vm = PythonVM::new();
    vm.step_execute("x = 1");
}

#[test]
fn failed_code_yields_the_empty_machine() {
    assert_eq!(sam_after_code(Ok(())), None);
    assert_eq!(sam_after_code(Err("SyntaxError".to_string())), Some(SAM::default()));
}
