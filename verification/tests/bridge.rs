use std::cell::RefCell;
use std::rc::Rc;

use wvr_script::command::{Command, SamplingMode, StageUpdate, TypedValue};
use wvr_script::link::WvrLink;
use wvr_script::provider::InputProvider;
use wvr_script::table::NameTable;

/// A provider that records every call made to it and answers with one value.
#[derive(Clone)]
struct Recorder {
    answer: Option<TypedValue>,
    calls: Rc<RefCell<Vec<String>>>,
}

impl Recorder {
    fn answering(answer: Option<TypedValue>) -> Self {
        Recorder { answer, calls: Rc::new(RefCell::new(Vec::new())) }
    }

    fn calls(&self) -> Vec<String> {
        self.calls.borrow().clone()
    }
}

impl InputProvider for Recorder {
    fn get(&mut self, property: &str, flag: bool) -> Option<TypedValue> {
        self.calls.borrow_mut().push(format!("get {} {}", property, flag));
        self.answer
    }

    fn set_property(&mut self, property: &str, value: &TypedValue) {
        self.calls.borrow_mut().push(format!("set {} {:?}", property, value));
    }
}

fn link_with(provider: Option<Recorder>) -> WvrLink<Recorder> {
    let mut stages = NameTable::new();
    stages.insert(String::from("Fb1"), 0);
    stages.insert(String::from("Blur"), 3);
    let mut providers = NameTable::new();
    if let Some(provider) = provider {
        providers.insert(String::from("cam0"), provider);
    }
    WvrLink::new(stages, providers)
}

fn s(text: &str) -> String {
    String::from(text)
}

fn variable(stage: usize, name: &str, value: TypedValue) -> Command {
    Command::UpdateStage(stage, StageUpdate::SetNamedVariable(s(name), value))
}

#[test]
fn new_bridge_has_emitted_nothing() {
    let link = link_with(None);
    assert!(link.event_list.is_empty());
    assert_eq!(link.stage_index_list.get(&s("Blur")), Some(&3));
}

#[test]
fn set_stage_float_emits_one_command() {
    let mut link = link_with(None);
    link.set_stage_float(s("Fb1"), s("speed"), 2.5f64.to_bits());
    assert_eq!(link.event_list, vec![variable(0, "speed", TypedValue::Float(2.5f64.to_bits()))]);
}

#[test]
fn set_stage_texture_input_understands_three_modes() {
    let mut link = link_with(None);
    link.set_stage_texture_input(s("Fb1"), s("tex0"), s("Linear"), s("cam0"));
    link.set_stage_texture_input(s("Blur"), s("tex1"), s("Nearest"), s("cam1"));
    link.set_stage_texture_input(s("Blur"), s("tex2"), s("Mipmaps"), s("cam2"));
    assert_eq!(
        link.event_list,
        vec![
            Command::UpdateStage(0, StageUpdate::SetNamedTextureInput(s("tex0"), SamplingMode::Linear, s("cam0"))),
            Command::UpdateStage(3, StageUpdate::SetNamedTextureInput(s("tex1"), SamplingMode::Nearest, s("cam1"))),
            Command::UpdateStage(3, StageUpdate::SetNamedTextureInput(s("tex2"), SamplingMode::Mipmaps, s("cam2"))),
        ]
    );
}

#[test]
fn set_stage_texture_input_drops_unknown_modes() {
    let mut link = link_with(None);
    for mode in ["Bogus", "linear", "LINEAR", "", "Linear ", "Mipmap"] {
        link.set_stage_texture_input(s("Fb1"), s("tex0"), s(mode), s("cam0"));
    }
    assert!(link.event_list.is_empty());
}

#[test]
fn float_vectors_keep_their_components_in_order() {
    let mut link = link_with(None);
    let (x, y, z, w) = (1.0f64.to_bits(), (-2.0f64).to_bits(), 0.5f64.to_bits(), f64::MAX.to_bits());
    link.set_stage_float2(s("Fb1"), s("a"), x, y);
    link.set_stage_float3(s("Fb1"), s("b"), x, y, z);
    link.set_stage_float4(s("Blur"), s("c"), x, y, z, w);
    assert_eq!(
        link.event_list,
        vec![
            variable(0, "a", TypedValue::Float2([x, y])),
            variable(0, "b", TypedValue::Float3([x, y, z])),
            variable(3, "c", TypedValue::Float4([x, y, z, w])),
        ]
    );
}

#[test]
fn integer_vectors_keep_their_components_in_order() {
    let mut link = link_with(None);
    link.set_stage_int(s("Fb1"), s("a"), 7);
    link.set_stage_int2(s("Fb1"), s("b"), 1, -2);
    link.set_stage_int3(s("Fb1"), s("c"), 1, -2, 3);
    link.set_stage_int4(s("Blur"), s("d"), 1, -2, 3, -4);
    assert_eq!(
        link.event_list,
        vec![
            variable(0, "a", TypedValue::Int(7)),
            variable(0, "b", TypedValue::Int2([1, -2])),
            variable(0, "c", TypedValue::Int3([1, -2, 3])),
            variable(3, "d", TypedValue::Int4([1, -2, 3, -4])),
        ]
    );
}

#[test]
fn integers_keep_their_low_32_bits() {
    let mut link = link_with(None);
    link.set_stage_int4(s("Fb1"), s("edge"), 0x1_0000_0005, 0x8000_0000, -0x8000_0001, i64::MIN);
    link.set_stage_int2(s("Fb1"), s("ends"), i64::MAX, -1);
    link.set_stage_int3(s("Fb1"), s("range"), 0x7fff_ffff, -0x8000_0000, 0xffff_ffff);
    assert_eq!(
        link.event_list,
        vec![
            variable(0, "edge", TypedValue::Int4([5, i32::MIN, i32::MAX, 0])),
            variable(0, "ends", TypedValue::Int2([-1, -1])),
            variable(0, "range", TypedValue::Int3([i32::MAX, i32::MIN, -1])),
        ]
    );
}

#[test]
fn only_one_stands_for_true() {
    let mut link = link_with(None);
    for number in [1, 0, 2, -1, i64::MAX] {
        link.set_stage_bool(s("Fb1"), s("on"), number);
    }
    assert_eq!(
        link.event_list,
        vec![
            variable(0, "on", TypedValue::Bool(true)),
            variable(0, "on", TypedValue::Bool(false)),
            variable(0, "on", TypedValue::Bool(false)),
            variable(0, "on", TypedValue::Bool(false)),
            variable(0, "on", TypedValue::Bool(false)),
        ]
    );
}

#[test]
fn set_bpm_emits_a_tempo_command() {
    let mut link = link_with(None);
    link.set_bpm(128.0f64.to_bits());
    link.set_stage_float(s("Fb1"), s("speed"), 1.0f64.to_bits());
    link.set_bpm(90.5f64.to_bits());
    assert_eq!(
        link.event_list,
        vec![
            Command::SetTempo(128.0f64.to_bits()),
            variable(0, "speed", TypedValue::Float(1.0f64.to_bits())),
            Command::SetTempo(90.5f64.to_bits()),
        ]
    );
}

#[test]
fn unknown_stage_emits_nothing() {
    let mut link = link_with(None);
    for stage in ["Fb2", "fb1", "", "Fb1 "] {
        link.set_stage_texture_input(s(stage), s("tex0"), s("Linear"), s("cam0"));
        link.set_stage_float(s(stage), s("v"), 1);
        link.set_stage_float2(s(stage), s("v"), 1, 2);
        link.set_stage_float3(s(stage), s("v"), 1, 2, 3);
        link.set_stage_float4(s(stage), s("v"), 1, 2, 3, 4);
        link.set_stage_int(s(stage), s("v"), 1);
        link.set_stage_int2(s(stage), s("v"), 1, 2);
        link.set_stage_int3(s(stage), s("v"), 1, 2, 3);
        link.set_stage_int4(s(stage), s("v"), 1, 2, 3, 4);
        link.set_stage_bool(s(stage), s("v"), 1);
    }
    assert!(link.event_list.is_empty());
}

#[test]
fn unknown_provider_reads_as_default_and_ignores_writes() {
    let recorder = Recorder::answering(Some(TypedValue::Float(9)));
    let mut link = link_with(Some(recorder.clone()));
    assert_eq!(link.get_provider_float(s("cam1"), s("gain")), 0.0f64.to_bits());
    assert_eq!(link.get_provider_int(s("cam1"), s("gain")), 0);
    assert_eq!(link.get_provider_bool(s("cam1"), s("gain")), false);
    link.set_provider_float(s("cam1"), s("gain"), 1.5f64.to_bits());
    link.set_provider_int(s("cam1"), s("gain"), 3);
    link.set_provider_bool(s("cam1"), s("gain"), true);
    assert!(recorder.calls().is_empty());
    assert!(link.event_list.is_empty());
    assert!(link.input_list.get(&s("cam0")).is_some());
    assert!(link.input_list.get(&s("cam1")).is_none());
}

#[test]
fn known_provider_is_asked_with_the_fixed_flag() {
    let recorder = Recorder::answering(Some(TypedValue::Float(1.25f64.to_bits())));
    let mut link = link_with(Some(recorder.clone()));
    assert_eq!(link.get_provider_float(s("cam0"), s("gain")), 1.25f64.to_bits());
    assert_eq!(link.get_provider_int(s("cam0"), s("gain")), 0);
    assert_eq!(link.get_provider_bool(s("cam0"), s("gain")), false);
    assert_eq!(recorder.calls(), vec![s("get gain false"), s("get gain false"), s("get gain false")]);
    assert!(link.event_list.is_empty());
}

#[test]
fn known_provider_receives_typed_writes() {
    let recorder = Recorder::answering(None);
    let mut link = link_with(Some(recorder.clone()));
    link.set_provider_float(s("cam0"), s("gain"), 7);
    link.set_provider_int(s("cam0"), s("note"), 0x1_0000_0002);
    link.set_provider_bool(s("cam0"), s("held"), true);
    assert_eq!(recorder.calls(), vec![s("set gain Float(7)"), s("set note Int(2)"), s("set held Bool(true)")]);
    assert!(link.event_list.is_empty());
}

#[test]
fn provider_answers_of_another_type_read_as_default() {
    let mut link = link_with(Some(Recorder::answering(Some(TypedValue::Int(-4)))));
    assert_eq!(link.get_provider_float(s("cam0"), s("x")), 0);
    assert_eq!(link.get_provider_int(s("cam0"), s("x")), -4);
    assert_eq!(link.get_provider_bool(s("cam0"), s("x")), false);
    let mut link = link_with(Some(Recorder::answering(Some(TypedValue::Bool(true)))));
    assert_eq!(link.get_provider_float(s("cam0"), s("x")), 0);
    assert_eq!(link.get_provider_int(s("cam0"), s("x")), 0);
    assert_eq!(link.get_provider_bool(s("cam0"), s("x")), true);
    let mut link = link_with(Some(Recorder::answering(None)));
    assert_eq!(link.get_provider_float(s("cam0"), s("x")), 0);
    assert_eq!(link.get_provider_int(s("cam0"), s("x")), 0);
    assert_eq!(link.get_provider_bool(s("cam0"), s("x")), false);
}

#[test]
fn random_floats_lie_below_one() {
    let mut link = link_with(None);
    for _ in 0..1000 {
        let drawn = f64::from_bits(link.rnd_float());
        assert!(0.0 <= drawn && drawn < 1.0);
    }
    assert!(link.event_list.is_empty());
}

#[test]
fn random_integers_vary() {
    let mut link = link_with(None);
    let first = link.rnd_int();
    let mut varied = false;
    for _ in 0..64 {
        varied = varied || link.rnd_int() != first;
    }
    assert!(varied);
    assert!(link.event_list.is_empty());
}
