use vstd::prelude::*;
use crate::command::Command;
use crate::command::CommandView;
use crate::interpreter::{
    commands_of, compile, compile_complaint, empty_globals, global_names, globals_of,
    is_compiled_form, register_basics, register_provider_access, register_provider_floats,
    register_stage_access, register_stage_float_vectors, register_stage_floats, run, tick_scope,
};
use crate::link::{LinkView, WvrLink};
use crate::provider::InputProvider;
use crate::table::NameTable;
use core::marker::PhantomData;
use rhai::{Dynamic, Engine, AST};

verus! {

/// Why a tick gave no commands.
#[derive(Clone, Debug, PartialEq, Eq)]
pub enum ScriptError {
    /// The interpreter reported a fault while it ran the script; the text is
    /// the interpreter's account of it.
    Runtime(String),
    /// The script ran to its end, but left `globals` or `event_list` as
    /// something other than what it was given under that name.
    ContextLost,
}

/// What one run of the compiled script left behind.
pub enum TickOutcome {
    /// The interpreter reported a fault.
    Fault(String),
    /// The script ran to its end. The two parts are what the variables
    /// `globals` and `event_list` then held: the globals, and the commands
    /// that the bridge has collected; either is missing where the script has
    /// put something else under that name.
    Completed(Option<Dynamic>, Option<Vec<Command>>),
}

/// What one run of the script is given.
pub struct TickInput<'a, P> {
    /// The bridge of this tick.
    pub link: WvrLink<P>,
    /// The tempo, as the bit pattern of a double.
    pub bpm: u64,
    /// The beat, as the bit pattern of a double.
    pub beat: u64,
    /// The beats since the last tick, as the bit pattern of a double.
    pub d_beat: u64,
    /// The time, as the bit pattern of a double.
    pub time: u64,
    /// The time since the last tick, as the bit pattern of a double.
    pub d_time: u64,
    /// The frame counter, as a script counts: in 64 bits with a sign.
    pub frame_count: i64,
    /// The globals that the host has kept from the tick before.
    pub globals: &'a Dynamic,
}

/// The frame counter as a script sees it: the number itself while it is
/// below 2^63, and 2^64 less beyond that.
pub open spec fn frame_number(frame_count: usize) -> int {
    if frame_count < 0x8000_0000_0000_0000 {
        frame_count as int
    } else {
        frame_count - 0x1_0000_0000_0000_0000
    }
}

/// A script host: the text of a script, its compiled form while the text
/// compiles, and the global variables that the script keeps from one tick to
/// the next.
pub struct Script<P> {
    engine: Engine,
    script_source: String,
    ast: Option<AST>,
    global_variable_list: Dynamic,
    diagnostic: Option<String>,
    providers: PhantomData<P>,
}

/// What a [`Script`] holds, apart from its interpreter.
pub struct ScriptView {
    /// The text of the script as it was last read.
    pub source: Seq<char>,
    /// The compiled form of that text, unless the text did not compile.
    pub compiled: Option<AST>,
    /// The global variables of the script.
    pub globals: Dynamic,
    /// What the compiler said of the text, where it did not compile.
    pub diagnostic: Option<Seq<char>>,
}

impl<P> View for Script<P> {
    type V = ScriptView;

    closed spec fn view(&self) -> ScriptView {
        ScriptView {
            source: self.script_source@,
            compiled: self.ast,
            globals: self.global_variable_list,
            diagnostic: match self.diagnostic {
                Some(text) => Some(text@),
                None => None,
            },
        }
    }
}

/// The host after it has taken `source` as its text, with `compiled` as what
/// the compiler made of that text: the text and its compiled form are
/// replaced together, a text that did not compile leaves the host without a
/// compiled form, and the globals stay.
pub open spec fn installed(before: ScriptView, source: Seq<char>, compiled: Result<AST, String>) -> ScriptView {
    ScriptView {
        source,
        compiled: match compiled {
            Ok(ast) => Some(ast),
            Err(_) => None,
        },
        globals: before.globals,
        diagnostic: match compiled {
            Ok(_) => None,
            Err(text) => Some(text@),
        },
    }
}

/// Whether `host` holds `source` as its text together with what the
/// compiler makes of that text: a compiled form of it where the text
/// compiles, and otherwise no compiled form and the compiler's complaint.
pub open spec fn holds_script(host: ScriptView, source: Seq<char>) -> bool {
    &&& host.source == source
    &&& host.diagnostic == compile_complaint(source)
    &&& match host.compiled {
        Some(ast) => compile_complaint(source) is None && is_compiled_form(source, ast),
        None => compile_complaint(source) is Some,
    }
}

/// The host after a run of its script that ended in `outcome`: the globals
/// are replaced by those that the script left, provided that the script ran
/// to its end and left both globals and commands; nothing else changes, and
/// after any other outcome nothing changes at all.
pub open spec fn settled(before: ScriptView, outcome: TickOutcome) -> ScriptView {
    match outcome {
        TickOutcome::Completed(Some(globals), Some(_)) => ScriptView {
            source: before.source,
            compiled: before.compiled,
            globals,
            diagnostic: before.diagnostic,
        },
        _ => before,
    }
}

/// What a tick returns after a run of the script that ended in `outcome`:
/// the commands that the bridge collected, or the reason why there are none.
pub open spec fn tick_result(outcome: TickOutcome) -> Result<Vec<Command>, ScriptError> {
    match outcome {
        TickOutcome::Fault(text) => Err(ScriptError::Runtime(text)),
        TickOutcome::Completed(Some(_), Some(commands)) => Ok(commands),
        TickOutcome::Completed(_, _) => Err(ScriptError::ContextLost),
    }
}

/// Whether a tick can take the host from `before` to `after` and return
/// `result`. Without a compiled form the tick does nothing and returns an
/// empty list of commands. With one, the script is run, and the tick ends as
/// the outcome of that run says.
pub open spec fn ticked(before: ScriptView, after: ScriptView, result: Result<Vec<Command>, ScriptError>) -> bool {
    match before.compiled {
        None => {
            &&& after == before
            &&& result matches Ok(commands)
            &&& commands@ == Seq::<Command>::empty()
        },
        Some(_) => exists|outcome: TickOutcome|
            after == #[trigger] settled(before, outcome) && result == tick_result(outcome),
    }
}

impl<P: InputProvider + Clone + 'static> Script<P> {
    /// A host for the script with the given text, with no globals yet. A
    /// text that does not compile gives a host without a compiled form.
    pub fn new(script_source: String) -> (script: Self)
        ensures
            holds_script(script@, script_source@),
            global_names(script@.globals) == Set::<Seq<char>>::empty(),
    {
        let mut engine = Engine::new();
        register_basics::<P>(&mut engine);
        register_provider_floats::<P>(&mut engine);
        register_provider_access::<P>(&mut engine);
        register_stage_floats::<P>(&mut engine);
        register_stage_float_vectors::<P>(&mut engine);
        register_stage_access::<P>(&mut engine);
        let compiled = compile(&engine, script_source.as_str());
        let mut script = Script {
            engine,
            script_source: String::new(),
            ast: None,
            global_variable_list: empty_globals(),
            diagnostic: None,
            providers: PhantomData,
        };
        script.install(script_source, compiled);
        script
    }

    /// Takes `script_source` as the text of the script, and `compiled` as
    /// what the compiler made of it.
    pub fn install(&mut self, script_source: String, compiled: Result<AST, String>)
        ensures
            final(self)@ == installed(old(self)@, script_source@, compiled),
    {
        self.script_source = script_source;
        match compiled {
            Ok(ast) => {
                self.ast = Some(ast);
                self.diagnostic = None;
            },
            Err(text) => {
                self.ast = None;
                self.diagnostic = Some(text);
            },
        }
    }

    /// Takes up a change of the script's file. `change` is the new text of
    /// the file where a change was seen and the file could be read, and
    /// nothing otherwise. A new text is compiled and replaces the old one
    /// together with its compiled form; the globals stay.
    pub fn update(&mut self, change: Option<String>)
        ensures
            match change {
                Some(text) => holds_script(final(self)@, text@) && final(self)@.globals == old(self)@.globals,
                None => final(self)@ == old(self)@,
            },
    {
        match change {
            Some(text) => {
                let compiled = compile(&self.engine, text.as_str());
                self.install(text, compiled);
            },
            None => {},
        }
    }

    /// Makes what one run of the script is given: a fresh bridge over the
    /// given stages and providers, the clock readings as they are, the frame
    /// counter, and the globals of the host.
    pub fn tick_input<'a>(
        &'a self,
        stage_index_list: NameTable<usize>,
        input_list: NameTable<P>,
        bpm: u64,
        beat: u64,
        d_beat: u64,
        time: u64,
        d_time: u64,
        frame_count: usize,
    ) -> (input: TickInput<'a, P>)
        ensures
            input.link@ == (LinkView {
                commands: Seq::<CommandView>::empty(),
                stages: stage_index_list@,
                providers: input_list@,
            }),
            input.bpm == bpm,
            input.beat == beat,
            input.d_beat == d_beat,
            input.time == time,
            input.d_time == d_time,
            input.frame_count == frame_number(frame_count),
            *input.globals == self@.globals,
    {
        let frames = #[verifier::truncate]
        (frame_count as i64);
        assert(frames == frame_number(frame_count)) by (bit_vector)
            requires
                frames == frame_count as i64,
        ;
        TickInput {
            link: WvrLink::new(stage_index_list, input_list),
            bpm,
            beat,
            d_beat,
            time,
            d_time,
            frame_count: frames,
            globals: &self.global_variable_list,
        }
    }

    /// Whether the host has a compiled form of its script.
    pub fn is_ready(&self) -> (ready: bool)
        ensures
            ready == self@.compiled.is_some(),
    {
        self.ast.is_some()
    }

    /// The text of the script as it was last read.
    pub fn source(&self) -> (text: &String)
        ensures
            text@ == self@.source,
    {
        &self.script_source
    }

    /// What the compiler said of the text, where the text did not compile.
    pub fn diagnostic(&self) -> (text: Option<&String>)
        ensures
            match text {
                Some(words) => self@.diagnostic == Some(words@),
                None => self@.diagnostic is None,
            },
    {
        self.diagnostic.as_ref()
    }

    /// Runs one tick of the script over the given stages and providers.
    ///
    /// Without a compiled form nothing runs: the tick returns an empty list
    /// and the host stays as it is. Otherwise the script runs with a fresh
    /// bridge as `event_list`, the clock readings as `bpm`, `beat`, `d_beat`,
    /// `time` and `d_time`, the frame counter as `frame_count`, and a copy of
    /// the globals as `globals`. The clock readings are given as the bit
    /// patterns of doubles. When the script has run to its end, the host
    /// takes over the globals as the script left them and returns the
    /// commands of the bridge. When the interpreter reports a fault, the tick
    /// fails and the host stays as it is, compiled form included.
    pub fn execute(
        &mut self,
        stage_index_list: NameTable<usize>,
        input_list: NameTable<P>,
        bpm: u64,
        beat: u64,
        d_beat: u64,
        time: u64,
        d_time: u64,
        frame_count: usize,
    ) -> (result: Result<Vec<Command>, ScriptError>)
        ensures
            ticked(old(self)@, final(self)@, result),
    {
        let outcome = match &self.ast {
            None => {
                return Ok(Vec::new());
            },
            Some(ast) => {
                let input = self.tick_input(stage_index_list, input_list, bpm, beat, d_beat, time, d_time, frame_count);
                let mut scope = tick_scope(input);
                match run(&self.engine, &mut scope, ast) {
                    Some(text) => TickOutcome::Fault(text),
                    None => TickOutcome::Completed(globals_of(&scope), commands_of::<P>(&scope)),
                }
            },
        };
        self.settle(outcome)
    }

    /// Takes up what a run of the script left behind, and gives what the
    /// tick returns.
    pub fn settle(&mut self, outcome: TickOutcome) -> (result: Result<Vec<Command>, ScriptError>)
        ensures
            final(self)@ == settled(old(self)@, outcome),
            result == tick_result(outcome),
    {
        match outcome {
            TickOutcome::Fault(text) => Err(ScriptError::Runtime(text)),
            TickOutcome::Completed(Some(globals), Some(commands)) => {
                self.global_variable_list = globals;
                Ok(commands)
            },
            TickOutcome::Completed(_, _) => Err(ScriptError::ContextLost),
        }
    }
}

/// A script that hands back the globals that it was given leaves the host as
/// it was, globals included.
pub proof fn lemma_passthrough_keeps_globals(before: ScriptView, commands: Vec<Command>)
    ensures
        settled(before, TickOutcome::Completed(Some(before.globals), Some(commands))) == before,
        tick_result(TickOutcome::Completed(Some(before.globals), Some(commands))) == Ok::<
            Vec<Command>,
            ScriptError,
        >(commands),
{
}

/// A text that does not compile leaves the host without a compiled form,
/// taking the text and keeping the globals. Every tick of such a host
/// succeeds with an empty list of commands and leaves the host as it was.
pub proof fn lemma_broken_script_is_inert(
    before: ScriptView,
    source: Seq<char>,
    complaint: String,
    after: ScriptView,
    result: Result<Vec<Command>, ScriptError>,
)
    requires
        ticked(installed(before, source, Err(complaint)), after, result),
    ensures
        installed(before, source, Err(complaint)).compiled is None,
        installed(before, source, Err(complaint)).source == source,
        installed(before, source, Err(complaint)).globals == before.globals,
        after == installed(before, source, Err(complaint)),
        result matches Ok(commands) && commands@.len() == 0,
{
}

/// A host that holds a text of which the compiler complains has no compiled
/// form, whether the text came at the start or with a reload. Every tick of
/// such a host succeeds with an empty list of commands and leaves the host as
/// it was.
pub proof fn lemma_rejected_text_is_inert(
    host: ScriptView,
    source: Seq<char>,
    after: ScriptView,
    result: Result<Vec<Command>, ScriptError>,
)
    requires
        compile_complaint(source) is Some,
        holds_script(host, source),
        ticked(host, after, result),
    ensures
        host.compiled is None,
        host.diagnostic == compile_complaint(source),
        after == host,
        result matches Ok(commands) && commands@.len() == 0,
{
}

/// A run that ends in a fault makes the tick fail, and a tick that fails
/// leaves the host as it was: the compiled form stays for the next tick, and
/// so do the globals.
pub proof fn lemma_fault_keeps_compiled_form(
    before: ScriptView,
    fault: String,
    after: ScriptView,
    result: Result<Vec<Command>, ScriptError>,
)
    ensures
        tick_result(TickOutcome::Fault(fault)) == Err::<Vec<Command>, ScriptError>(ScriptError::Runtime(fault)),
        settled(before, TickOutcome::Fault(fault)) == before,
        ticked(before, after, result) && result is Err ==> after == before,
        ticked(before, after, result) ==> after.compiled == before.compiled && after.source == before.source,
{
}

} // verus!
