use labelo::annotation::{
    clone_labels, Annotation, AnnotationSequence, BoxCorner, Interpolated, SerializableAabb,
    SerializablePoint,
};
use labelo::config::{
    Label, LabelConfig, LabelConfigInt, LabelConfigOptional, LabelConfigString, LabelConfigs,
    LabelInstance,
};
use labelo::task::LabelTask;

fn config_value(config: &LabelConfig) -> serde_json::Value {
    let mut inner = serde_json::Map::new();
    let mut outer = serde_json::Map::new();
    match config {
        LabelConfig::S(named) => {
            let states = named.states.iter().map(|s| serde_json::Value::from(s.as_str())).collect();
            inner.insert("name".to_string(), serde_json::Value::from(named.name.as_str()));
            inner.insert("states".to_string(), serde_json::Value::Array(states));
            inner.insert("optional".to_string(), serde_json::Value::from(named.optional));
            outer.insert("S".to_string(), serde_json::Value::Object(inner));
        }
        LabelConfig::I(number) => {
            inner.insert("name".to_string(), serde_json::Value::from(number.name.as_str()));
            inner.insert("first".to_string(), serde_json::Value::from(number.first));
            inner.insert("last".to_string(), serde_json::Value::from(number.last));
            inner.insert("optional".to_string(), serde_json::Value::from(number.optional));
            outer.insert("I".to_string(), serde_json::Value::Object(inner));
        }
    }
    serde_json::Value::Object(outer)
}

fn configs_value(configs: &LabelConfigs) -> serde_json::Value {
    let list = configs.label_configs.iter().map(config_value).collect();
    let mut outer = serde_json::Map::new();
    outer.insert("label_configs".to_string(), serde_json::Value::Array(list));
    serde_json::Value::Object(outer)
}

fn label_value(label: &Label) -> serde_json::Value {
    let mut inner = serde_json::Map::new();
    let mut outer = serde_json::Map::new();
    match label {
        Label::S(named) => {
            inner.insert("name".to_string(), serde_json::Value::from(named.name.as_str()));
            inner.insert("state".to_string(), serde_json::Value::from(named.state.as_str()));
            outer.insert("S".to_string(), serde_json::Value::Object(inner));
        }
        Label::I(number) => {
            inner.insert("name".to_string(), serde_json::Value::from(number.name.as_str()));
            inner.insert("state".to_string(), serde_json::Value::from(number.state));
            outer.insert("I".to_string(), serde_json::Value::Object(inner));
        }
    }
    serde_json::Value::Object(outer)
}

#[test]
fn label_config_serialize() {
    let l = LabelConfigString {
        name: "ALabel".to_string(),
        states: vec!["One".to_string(), "Two".to_string(), "Three".to_string()],
        optional: false,
    };

    let li = LabelConfigInt { name: "ILabel".to_string(), first: 1, last: 5, optional: true };

    let single = config_value(&LabelConfig::S(l.clone()));
    let s = toml::to_string(&single["S"]).unwrap();
    println!("{}", s);
    assert!(s.contains("name = \"ALabel\""));
    assert!(s.contains("states = [\"One\", \"Two\", \"Three\"]"));
    assert!(s.contains("optional = false"));

    let lc = LabelConfigs { label_configs: vec![LabelConfig::S(l.clone()), LabelConfig::I(li.clone())] };
    let s2 = toml::to_string(&configs_value(&lc)).unwrap();
    println!("{}", s2);
    assert!(s2.contains("ILabel"));

    let s3 = serde_json::to_string_pretty(&configs_value(&lc)).unwrap();
    println!("JSON: {}", s3);
    let back: serde_json::Value = serde_json::from_str(&s3).unwrap();
    assert_eq!(back["label_configs"][1]["I"]["last"], serde_json::Value::from(5));
    assert_eq!(back["label_configs"][0]["S"]["states"][2], serde_json::Value::from("Three"));
}

#[test]
fn label_serialize() {
    let l = Label::S(LabelInstance::<String> { name: "ALabel".to_string(), state: "AState".to_string() });
    let s = toml::to_string(&label_value(&l)).unwrap();
    println!("{}", s);
    assert!(s.contains("AState"));

    let s2 = serde_json::to_string_pretty(&label_value(&l)).unwrap();
    println!("{}", s2);
    let back: serde_json::Value = serde_json::from_str(&s2).unwrap();
    assert_eq!(back["S"]["name"], serde_json::Value::from("ALabel"));
    assert_eq!(back["S"]["state"], serde_json::Value::from("AState"));
}

#[test]
fn default_configs_are_animal_and_size() {
    let c = LabelConfigs::default();
    assert_eq!(c.label_configs.len(), 2);
    match &c.label_configs[0] {
        LabelConfig::S(animal) => {
            assert_eq!(animal.name, "animal");
            assert_eq!(animal.states, vec!["cat", "dog", "possum"]);
            assert!(!animal.optional);
            assert!(!animal.is_optional());
        }
        LabelConfig::I(_) => panic!("the first label has named states"),
    }
    match &c.label_configs[1] {
        LabelConfig::I(size) => {
            assert_eq!(size.name, "size");
            assert_eq!(size.first, 1);
            assert_eq!(size.last, 10);
            assert!(size.is_optional());
        }
        LabelConfig::S(_) => panic!("the second label is a number"),
    }
    assert!(!c.label_configs[0].is_optional());
    assert!(c.label_configs[1].is_optional());
    assert_eq!(c.label_configs[0].name(), "animal");
    assert_eq!(c.label_configs[1].name(), "size");
    assert!(c.is_startable());
}

#[test]
fn a_label_without_states_cannot_start() {
    let empty = LabelConfigString { name: "e".to_string(), states: vec![], optional: false };
    let configs = LabelConfigs {
        label_configs: vec![
            LabelConfig::I(LabelConfigInt { name: "n".to_string(), first: 0, last: 1, optional: false }),
            LabelConfig::S(empty),
        ],
    };
    assert!(!configs.is_startable());
    assert!(LabelConfigs { label_configs: vec![] }.is_startable());
}

fn label_pair(label: &Label) -> (String, String) {
    match label {
        Label::S(named) => (named.name.clone(), named.state.clone()),
        Label::I(number) => (number.name.clone(), number.state.to_string()),
    }
}

#[test]
fn initial_labels_take_the_first_state_and_the_lowest_number() {
    let labels = LabelConfigs::default().initial_labels();
    assert_eq!(labels.len(), 2);
    assert_eq!(label_pair(&labels[0]), ("animal".to_string(), "cat".to_string()));
    assert_eq!(label_pair(&labels[1]), ("size".to_string(), "1".to_string()));
    let copy = clone_labels(&labels);
    assert_eq!(copy.len(), 2);
    assert_eq!(label_pair(&copy[0]), label_pair(&labels[0]));
    assert_eq!(label_pair(&copy[1]), label_pair(&labels[1]));
    assert_eq!(label_pair(&labels[1].clone()), ("size".to_string(), "1".to_string()));
}

#[test]
fn point_keeps_its_coordinates() {
    let p = SerializablePoint::new(3, -4);
    assert_eq!(p.x, 3);
    assert_eq!(p.y, -4);
    let q = SerializablePoint::new(0.25f32, 0.5f32);
    assert_eq!(q.x, 0.25);
    assert_eq!(q.y, 0.5);
    let r = q.clone();
    assert_eq!((r.x, r.y), (0.25, 0.5));
}

#[test]
fn corners_of_a_box() {
    let b = SerializableAabb { mins: SerializablePoint::new(1, 2), maxs: SerializablePoint::new(3, 4) };
    let lu = BoxCorner::LU.from_serializable_aabb(&b);
    let ru = BoxCorner::RU.from_serializable_aabb(&b);
    let rd = BoxCorner::RD.from_serializable_aabb(&b);
    let ld = BoxCorner::LD.from_serializable_aabb(&b);
    assert_eq!((lu.x, lu.y), (1, 2));
    assert_eq!((ru.x, ru.y), (3, 2));
    assert_eq!((rd.x, rd.y), (3, 4));
    assert_eq!((ld.x, ld.y), (1, 4));
    assert_ne!(BoxCorner::LU, BoxCorner::LD);
}

fn keyframe(frame: usize, at: f32) -> Annotation<f32> {
    Annotation::new(&LabelConfigs::default(), at, at, frame)
}

fn sequence_on(frames: &[usize]) -> AnnotationSequence<f32> {
    let mut sequence = AnnotationSequence::new();
    for frame in frames {
        sequence.annotations.push(keyframe(*frame, *frame as f32));
    }
    sequence
}

fn frames_of(sequence: &AnnotationSequence<f32>) -> Vec<usize> {
    sequence.annotations.iter().map(|a| a.frame).collect()
}

#[test]
fn new_annotation_is_a_visible_keyframe() {
    let a = keyframe(7, 0.5);
    assert_eq!(a.frame, 7);
    assert!(!a.invisible);
    assert!(!a.interpolated);
    assert_eq!((a.bbox.mins.x, a.bbox.mins.y, a.bbox.maxs.x, a.bbox.maxs.y), (0.5, 0.5, 0.5, 0.5));
    assert_eq!(a.labels.len(), 2);
    assert_eq!(label_pair(&a.labels[0]), ("animal".to_string(), "cat".to_string()));
    let b = a.clone();
    assert_eq!(b.frame, 7);
    assert_eq!(b.labels.len(), 2);
    assert_eq!(b.bbox.maxs.x, 0.5);
}

#[test]
fn which_annotations_are_saved() {
    let mut a = keyframe(0, 0.0);
    assert!(a.is_saved(true));
    assert!(a.is_saved(false));
    a.invisible = true;
    assert!(a.is_saved(true));
    a.interpolated = true;
    assert!(!a.is_saved(true));
    assert!(a.is_saved(false));
    a.invisible = false;
    assert!(a.is_saved(true));
}

#[test]
fn annotations_round_a_frame() {
    let sequence = sequence_on(&[10, 20, 30]);
    assert_eq!(sequence.get_annotations_for_frame(10), Some((0, None)));
    assert_eq!(sequence.get_annotations_for_frame(20), Some((1, None)));
    assert_eq!(sequence.get_annotations_for_frame(30), Some((2, None)));
    assert_eq!(sequence.get_annotations_for_frame(15), Some((0, Some(1))));
    assert_eq!(sequence.get_annotations_for_frame(29), Some((1, Some(2))));
    assert_eq!(sequence.get_annotations_for_frame(31), Some((2, None)));
    assert_eq!(sequence.get_annotations_for_frame(9), None);
    assert_eq!(sequence.get_annotations_for_frame(0), None);
    assert_eq!(AnnotationSequence::<f32>::new().get_annotations_for_frame(5), None);
}

#[test]
fn annotation_on_a_keyframe_is_the_keyframe() {
    let sequence = sequence_on(&[10, 20]);
    match sequence.get_interpolated_annotation_for_frame(20) {
        Some(Interpolated::Whole(a)) => {
            assert_eq!(a.frame, 20);
            assert!(!a.interpolated);
            assert_eq!(a.bbox.mins.x, 20.0);
        }
        _ => panic!("a keyframe is whole"),
    }
}

#[test]
fn annotation_after_the_last_keyframe_is_carried_on() {
    let sequence = sequence_on(&[10, 20]);
    match sequence.get_interpolated_annotation_for_frame(25) {
        Some(Interpolated::Whole(a)) => {
            assert_eq!(a.frame, 25);
            assert!(a.interpolated);
            assert_eq!(a.bbox.mins.x, 20.0);
            assert_eq!(a.labels.len(), 2);
        }
        _ => panic!("the last keyframe is carried on"),
    }
}

#[test]
fn annotation_between_keyframes_is_to_be_blended() {
    let mut sequence = sequence_on(&[10, 20]);
    sequence.annotations[0].invisible = true;
    match sequence.get_interpolated_annotation_for_frame(14) {
        Some(Interpolated::Blend { annotation, toward, from, to }) => {
            assert_eq!(annotation.frame, 14);
            assert!(annotation.interpolated);
            assert!(annotation.invisible);
            assert_eq!(annotation.bbox.mins.x, 10.0);
            assert_eq!(toward.mins.x, 20.0);
            assert_eq!((from, to), (10, 20));
        }
        _ => panic!("between two keyframes"),
    }
    assert!(sequence.get_interpolated_annotation_for_frame(9).is_none());
}

#[test]
fn editing_replaces_or_adds_a_keyframe() {
    let mut sequence = sequence_on(&[10, 20, 30]);
    let mut drawn = keyframe(99, 0.75);
    drawn.interpolated = true;

    sequence.edit_annotation(20, &drawn);
    assert_eq!(frames_of(&sequence), vec![10, 20, 30]);
    assert_eq!(sequence.annotations[1].bbox.mins.x, 0.75);
    assert!(!sequence.annotations[1].interpolated);

    sequence.edit_annotation(25, &drawn);
    assert_eq!(frames_of(&sequence), vec![10, 20, 25, 30]);
    assert_eq!(sequence.annotations[2].bbox.mins.x, 0.75);
    assert!(!sequence.annotations[2].interpolated);

    sequence.edit_annotation(40, &drawn);
    assert_eq!(frames_of(&sequence), vec![10, 20, 25, 30, 40]);

    sequence.edit_annotation(5, &drawn);
    assert_eq!(frames_of(&sequence), vec![10, 20, 25, 30, 40]);

    let mut empty = AnnotationSequence::<f32>::new();
    empty.edit_annotation(5, &drawn);
    assert_eq!(empty.annotations.len(), 0);
}

#[test]
fn propagating_gives_later_annotations_the_labels_of_the_frame() {
    let mut sequence = sequence_on(&[10, 20, 30]);
    sequence.annotations[1].invisible = true;
    sequence.annotations[1].labels =
        vec![Label::I(LabelInstance { name: "size".to_string(), state: 7 })];
    sequence.propagate(25);
    assert_eq!(sequence.annotations[0].labels.len(), 2);
    assert!(!sequence.annotations[0].invisible);
    assert_eq!(sequence.annotations[1].labels.len(), 1);
    assert_eq!(sequence.annotations[2].labels.len(), 1);
    assert_eq!(label_pair(&sequence.annotations[2].labels[0]), ("size".to_string(), "7".to_string()));
    assert!(sequence.annotations[2].invisible);
    assert_eq!(sequence.annotations[2].bbox.mins.x, 30.0);
    assert_eq!(frames_of(&sequence), vec![10, 20, 30]);

    let mut untouched = sequence_on(&[10, 20]);
    untouched.annotations[0].invisible = true;
    untouched.propagate(5);
    assert!(!untouched.annotations[1].invisible);
}

#[test]
fn keyframes_leave_out_interpolated_annotations() {
    let mut sequence = sequence_on(&[1, 2, 3, 4]);
    sequence.annotations[0].interpolated = true;
    sequence.annotations[2].interpolated = true;
    assert_eq!(frames_of(&sequence.keyframes()), vec![2, 4]);
    assert_eq!(frames_of(&sequence), vec![1, 2, 3, 4]);
    assert_eq!(frames_of(&AnnotationSequence::<f32>::new().keyframes()), Vec::<usize>::new());
}

#[test]
fn new_task_has_no_sequences() {
    let task = LabelTask::<f32>::new();
    assert!(!task.has_sequences());
    assert_eq!(task.current_sequence, 0);
    assert_eq!(task.configs.label_configs.len(), 2);
    assert!(task.get_current_interpolated_annotation_for_frame(3).is_none());
    assert!(task.get_all_annotations_for_frame(3).is_empty());
    assert!(task.get_all_interpolated_annotations_for_frame(3).is_empty());
}

#[test]
fn task_finds_the_sequences_of_a_frame() {
    let mut task = LabelTask::<f32>::new();
    task.add_new_annotation_sequence(keyframe(10, 0.1));
    task.add_new_annotation_sequence(keyframe(30, 0.3));
    task.add_new_annotation_sequence(keyframe(20, 0.2));
    task.sequences[2].annotations.push(keyframe(40, 0.4));
    assert!(task.has_sequences());
    assert_eq!(task.sequences.len(), 3);

    assert_eq!(task.get_all_annotations_for_frame(5), vec![]);
    assert_eq!(task.get_all_annotations_for_frame(10), vec![(0, (0, None))]);
    assert_eq!(
        task.get_all_annotations_for_frame(35),
        vec![(0, (0, None)), (1, (0, None)), (2, (0, Some(1)))]
    );

    let found = task.get_all_interpolated_annotations_for_frame(35);
    assert_eq!(found.len(), 3);
    assert_eq!(found[0].0, 0);
    assert_eq!(found[2].0, 2);
    assert!(matches!(found[1].1, Interpolated::Whole(_)));
    assert!(matches!(found[2].1, Interpolated::Blend { from: 20, to: 40, .. }));

    task.current_sequence = 2;
    assert!(matches!(
        task.get_current_interpolated_annotation_for_frame(40),
        Some(Interpolated::Whole(_))
    ));
    assert!(task.get_current_interpolated_annotation_for_frame(19).is_none());
}

#[test]
fn task_takes_over_stored_sequences() {
    let mut first = sequence_on(&[1, 2, 3]);
    first.annotations[1].interpolated = true;
    let second = sequence_on(&[7]);

    let mut task = LabelTask::<f32>::new();
    task.set_sequences(vec![first, second], false);
    assert_eq!(frames_of(&task.sequences[0]), vec![1, 2, 3]);
    assert_eq!(frames_of(&task.sequences[1]), vec![7]);

    let mut first = sequence_on(&[1, 2, 3]);
    first.annotations[1].interpolated = true;
    let mut all_interpolated = sequence_on(&[7]);
    all_interpolated.annotations[0].interpolated = true;
    task.set_sequences(vec![first, all_interpolated], true);
    assert_eq!(task.sequences.len(), 2);
    assert_eq!(frames_of(&task.sequences[0]), vec![1, 3]);
    assert_eq!(frames_of(&task.sequences[1]), Vec::<usize>::new());
}

#[test]
fn what_is_saved_of_a_sequence() {
    let mut sequence = sequence_on(&[2, 4]);
    sequence.annotations[1].invisible = true;

    let all = sequence.saved_annotations(7, false);
    let frames: Vec<usize> = all.iter().map(|found| found.annotation().frame).collect();
    assert_eq!(frames, vec![2, 3, 4, 5, 6]);
    assert!(matches!(all[0], Interpolated::Whole(_)));
    assert!(matches!(all[1], Interpolated::Blend { from: 2, to: 4, .. }));
    assert!(matches!(all[3], Interpolated::Whole(_)));
    assert!(all[3].annotation().interpolated);

    let visible = sequence.saved_annotations(7, true);
    let frames: Vec<usize> = visible.iter().map(|found| found.annotation().frame).collect();
    assert_eq!(frames, vec![2, 3, 4]);

    assert!(sequence.saved_annotations(2, false).is_empty());
    assert!(sequence.saved_annotations(0, false).is_empty());
    assert_eq!(sequence.saved_annotations(3, true).len(), 1);
}

#[test]
fn adding_a_sequence_makes_it_current() {
    let mut task = LabelTask::<f32>::new();
    task.add_sequence();
    assert_eq!(task.sequences.len(), 1);
    assert_eq!(task.current_sequence, 0);
    task.add_new_annotation_sequence(keyframe(3, 0.3));
    assert_eq!(task.current_sequence, 0);
    task.add_sequence();
    assert_eq!(task.sequences.len(), 3);
    assert_eq!(task.current_sequence, 2);
    assert!(task.sequences[2].annotations.is_empty());
    assert_eq!(frames_of(&task.sequences[1]), vec![3]);
}

#[test]
fn removing_a_sequence_keeps_the_current_one_in_range() {
    let mut task = LabelTask::<f32>::new();
    for frame in [1, 2, 3] {
        task.add_new_annotation_sequence(keyframe(frame, 0.0));
    }
    task.current_sequence = 2;
    task.remove_sequence(0);
    assert_eq!(task.sequences.len(), 2);
    assert_eq!(frames_of(&task.sequences[0]), vec![2]);
    assert_eq!(task.current_sequence, 1);
    task.remove_sequence(5);
    assert_eq!(task.sequences.len(), 2);
    assert_eq!(task.current_sequence, 1);
    task.current_sequence = 0;
    task.remove_sequence(1);
    assert_eq!(task.current_sequence, 0);
    task.remove_sequence(0);
    assert_eq!(task.sequences.len(), 0);
    assert_eq!(task.current_sequence, 0);
    task.current_sequence = 9;
    task.remove_sequence(0);
    assert_eq!(task.current_sequence, 0);
}

#[test]
fn editing_the_current_sequence() {
    let mut task = LabelTask::<f32>::new();
    task.edit_current_annotation(5, &keyframe(0, 0.9));
    assert!(!task.has_sequences());

    task.add_new_annotation_sequence(keyframe(10, 0.1));
    task.add_new_annotation_sequence(keyframe(20, 0.2));
    task.current_sequence = 1;
    task.edit_current_annotation(25, &keyframe(0, 0.9));
    assert_eq!(frames_of(&task.sequences[0]), vec![10]);
    assert_eq!(frames_of(&task.sequences[1]), vec![20, 25]);
    assert_eq!(task.sequences[1].annotations[1].bbox.mins.x, 0.9);
    assert_eq!(task.current_sequence, 1);
    task.edit_current_annotation(15, &keyframe(0, 0.9));
    assert_eq!(frames_of(&task.sequences[1]), vec![20, 25]);
}

#[test]
fn create_default_configs() {
    let c = LabelConfigs::default();
    let written = toml::to_string_pretty(&configs_value(&c)).unwrap_or("Oops".to_string());
    assert!(written.contains("animal"));
    assert!(written.contains("possum"));
    assert!(written.contains("size"));
    let back: toml::Value = toml::from_str(&written).unwrap();
    let configs = back["label_configs"].as_array().unwrap();
    assert_eq!(configs.len(), 2);
    assert_eq!(configs[1]["I"]["last"].as_integer(), Some(10));
}
