use vstd::prelude::*;
use crate::command::Command;
use crate::link::WvrLink;
use crate::provider::InputProvider;
use crate::script::TickInput;
use rhai::{Dynamic, Engine, Scope, AST, FLOAT};

verus! {

#[verifier::external_type_specification]
#[verifier::external_body]
pub struct ExEngine(Engine);

#[verifier::external_type_specification]
#[verifier::external_body]
pub struct ExAst(AST);

#[verifier::external_type_specification]
#[verifier::external_body]
pub struct ExScope<'a>(Scope<'a>);

#[verifier::external_type_specification]
#[verifier::external_body]
pub struct ExDynamic(Dynamic);

/// `Engine::new` makes an interpreter with the standard library of the
/// scripting language. Nothing is claimed of it.
pub assume_specification[ Engine::new ]() -> Engine;

/// `Engine::register_type` and `Engine::register_fn` make the bridge known to
/// the interpreter as a type, with the operations for drawing random numbers
/// and for setting the tempo under the names that scripts call them by. A
/// float crosses as the double that has the given bit pattern.
#[verifier::external_body]
pub(crate) fn register_basics<P: InputProvider + Clone + 'static>(engine: &mut Engine) {
    engine
        .register_type::<WvrLink<P>>()
        .register_fn("rnd_float", |link: &mut WvrLink<P>| FLOAT::from_bits(link.rnd_float()))
        .register_fn("rnd_int", WvrLink::<P>::rnd_int)
        .register_fn("set_bpm", |link: &mut WvrLink<P>, bpm: FLOAT| link.set_bpm(bpm.to_bits()));
}

/// `Engine::register_fn` makes the float operations on providers known to
/// the interpreter. A float crosses as the double that has the given bit
/// pattern.
#[verifier::external_body]
pub(crate) fn register_provider_floats<P: InputProvider + Clone + 'static>(engine: &mut Engine) {
    engine
        .register_fn("set_provider_float", |link: &mut WvrLink<P>, provider: String, property: String, value: FLOAT| {
            link.set_provider_float(provider, property, value.to_bits())
        })
        .register_fn("get_provider_float", |link: &mut WvrLink<P>, provider: String, property: String| {
            FLOAT::from_bits(link.get_provider_float(provider, property))
        });
}

/// `Engine::register_fn` makes the integer and boolean operations on
/// providers known to the interpreter.
#[verifier::external_body]
pub(crate) fn register_provider_access<P: InputProvider + Clone + 'static>(engine: &mut Engine) {
    engine
        .register_fn("set_provider_int", WvrLink::<P>::set_provider_int)
        .register_fn("get_provider_int", WvrLink::<P>::get_provider_int)
        .register_fn("set_provider_bool", WvrLink::<P>::set_provider_bool)
        .register_fn("get_provider_bool", WvrLink::<P>::get_provider_bool);
}

/// `Engine::register_fn` makes the operations that set a float variable of
/// one or two components known to the interpreter. A float crosses as the
/// double that has the given bit pattern.
#[verifier::external_body]
pub(crate) fn register_stage_floats<P: InputProvider + Clone + 'static>(engine: &mut Engine) {
    engine
        .register_fn("set_stage_float", |link: &mut WvrLink<P>, stage: String, name: String, x: FLOAT| {
            link.set_stage_float(stage, name, x.to_bits())
        })
        .register_fn("set_stage_float2", |link: &mut WvrLink<P>, stage: String, name: String, x: FLOAT, y: FLOAT| {
            link.set_stage_float2(stage, name, x.to_bits(), y.to_bits())
        });
}

/// `Engine::register_fn` makes the operations that set a float variable of
/// three or four components known to the interpreter. A float crosses as the
/// double that has the given bit pattern.
#[verifier::external_body]
pub(crate) fn register_stage_float_vectors<P: InputProvider + Clone + 'static>(engine: &mut Engine) {
    engine
        .register_fn("set_stage_float3", |link: &mut WvrLink<P>, stage: String, name: String, x: FLOAT, y: FLOAT, z: FLOAT| {
            link.set_stage_float3(stage, name, x.to_bits(), y.to_bits(), z.to_bits())
        })
        .register_fn("set_stage_float4", |link: &mut WvrLink<P>, stage: String, name: String, x: FLOAT, y: FLOAT, z: FLOAT, w: FLOAT| {
            link.set_stage_float4(stage, name, x.to_bits(), y.to_bits(), z.to_bits(), w.to_bits())
        });
}

/// `Engine::register_fn` makes the operations that set an integer or boolean
/// variable, or bind a texture input, known to the interpreter.
#[verifier::external_body]
pub(crate) fn register_stage_access<P: InputProvider + Clone + 'static>(engine: &mut Engine) {
    engine
        .register_fn("set_stage_texture_input", WvrLink::<P>::set_stage_texture_input)
        .register_fn("set_stage_int", WvrLink::<P>::set_stage_int)
        .register_fn("set_stage_int2", WvrLink::<P>::set_stage_int2)
        .register_fn("set_stage_int3", WvrLink::<P>::set_stage_int3)
        .register_fn("set_stage_int4", WvrLink::<P>::set_stage_int4)
        .register_fn("set_stage_bool", WvrLink::<P>::set_stage_bool);
}

/// What the compiler says against the text of a script: nothing where the
/// text compiles, and otherwise the parse error, as the text that its
/// `Debug` form gives.
pub uninterp spec fn compile_complaint(script_source: Seq<char>) -> Option<Seq<char>>;

/// Whether `ast` is a compiled form that the compiler has made of the text.
pub uninterp spec fn is_compiled_form(script_source: Seq<char>, ast: AST) -> bool;

/// The names of the entries of an object map.
pub uninterp spec fn global_names(globals: Dynamic) -> Set<Seq<char>>;

/// `Engine::compile` parses the text of a script and hands out its compiled
/// form, or the parse error, which is handed on as the text that its `Debug`
/// form gives. Whether the text parses, and with which error it does not, is
/// decided by the text and the settings of the interpreter; every
/// interpreter of this library has the settings that `Engine::new` gives, so
/// the text alone decides. The compiled form itself holds hashes that differ
/// from one process to the next, so of it only this is claimed: it is a
/// compiled form of this text.
#[verifier::external_body]
pub(crate) fn compile(engine: &Engine, script_source: &str) -> (compiled: Result<AST, String>)
    ensures
        match compiled {
            Ok(ast) => compile_complaint(script_source@) is None && is_compiled_form(script_source@, ast),
            Err(text) => compile_complaint(script_source@) == Some(text@),
        },
{
    engine.compile(script_source).map_err(|error| format!("{:?}", error))
}

/// `Dynamic::from_map` on a new `Map` is the value of an object map with no
/// entries.
#[verifier::external_body]
pub(crate) fn empty_globals() -> (globals: Dynamic)
    ensures
        global_names(globals) == Set::<Seq<char>>::empty(),
{
    Dynamic::from_map(rhai::Map::new())
}

/// `Scope::new` and `Scope::set_value` make the variables that a script
/// finds at the start of a tick, each from the part of `input` that is meant
/// for it: the bridge as `event_list`, the five clock readings as the doubles
/// that have the given bit patterns, the frame counter, and a copy of the
/// globals. `set_value` cannot refuse here, since a new scope holds no
/// constant. Nothing is claimed of the scope.
#[verifier::external_body]
pub(crate) fn tick_scope<P: InputProvider + Clone + 'static>(input: TickInput<'_, P>) -> (scope: Scope<'static>) {
    let mut scope = Scope::new();
    scope.set_value("event_list", input.link);
    scope.set_value("beat", FLOAT::from_bits(input.beat));
    scope.set_value("bpm", FLOAT::from_bits(input.bpm));
    scope.set_value("time", FLOAT::from_bits(input.time));
    scope.set_value("d_beat", FLOAT::from_bits(input.d_beat));
    scope.set_value("d_time", FLOAT::from_bits(input.d_time));
    scope.set_value("frame_count", input.frame_count);
    scope.set_value("globals", input.globals.clone());
    scope
}

/// `Engine::eval_ast_with_scope`, asked for no value, runs a compiled script
/// on the variables of `scope` and may change them. Where the interpreter
/// reports a fault, the fault is handed on as the text that its `Debug` form
/// gives. Nothing is claimed of the outcome, nor of the scope after it. The
/// call lasts as long as the script runs: a script that never ends keeps it
/// from returning.
#[verifier::external_body]
pub(crate) fn run(engine: &Engine, scope: &mut Scope<'static>, ast: &AST) -> (fault: Option<String>) {
    engine.eval_ast_with_scope::<()>(scope, ast).err().map(|error| format!("{:?}", error))
}

/// `Scope::get_value` hands out a copy of the object map that the variable
/// `globals` holds, if there is such a variable and it holds an object map.
/// Nothing is claimed of it.
#[verifier::external_body]
pub(crate) fn globals_of(scope: &Scope<'static>) -> (globals: Option<Dynamic>) {
    scope.get_value::<rhai::Map>("globals").map(Dynamic::from_map)
}

/// `Scope::get_value` hands out a copy of the bridge that the variable
/// `event_list` holds, if there is such a variable and it holds a bridge;
/// of that copy, the list of commands. Nothing is claimed of it.
#[verifier::external_body]
pub(crate) fn commands_of<P: InputProvider + Clone + 'static>(scope: &Scope<'static>) -> (commands: Option<Vec<Command>>) {
    scope.get_value::<WvrLink<P>>("event_list").map(|link| link.event_list)
}

} // verus!
