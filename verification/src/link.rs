use vstd::prelude::*;
use crate::command::{
    commands_view, int_component, low_word, parse_sampling_mode, sampling_mode_named, Command,
    CommandView, StageUpdate, StageUpdateView, TypedValue,
};
use crate::provider::{
    bool_reading, float_reading, int_reading, read_bool, read_float, read_int, InputProvider,
    QUERY_FLAG,
};
use crate::random::{draw_float, draw_int};
use crate::table::NameTable;
use rand::rngs::ThreadRng;

verus! {

/// The capability object that a script sees for the length of one tick.
///
/// Every operation that a script can ask of the host is a method of this
/// type. Operations on render stages append to `event_list`; operations on
/// providers go to the provider of that name in `input_list`. A stage or a
/// provider that is not in its table makes the operation do nothing.
#[derive(Clone)]
pub struct WvrLink<P> {
    /// The commands emitted so far in this tick, in order of emission.
    pub event_list: Vec<Command>,
    /// The index of each render stage, by name.
    pub stage_index_list: NameTable<usize>,
    /// The input providers, by name.
    pub input_list: NameTable<P>,
    /// The random source of this tick.
    pub rng: ThreadRng,
}

/// What a [`WvrLink`] holds, apart from its random source.
pub struct LinkView<P> {
    pub commands: Seq<CommandView>,
    pub stages: Map<Seq<char>, usize>,
    pub providers: Map<Seq<char>, P>,
}

impl<P> View for WvrLink<P> {
    type V = LinkView<P>;

    open spec fn view(&self) -> LinkView<P> {
        LinkView {
            commands: commands_view(self.event_list@),
            stages: self.stage_index_list@,
            providers: self.input_list@,
        }
    }
}

/// The bridge after it has emitted `command`.
pub open spec fn emit<P>(link: LinkView<P>, command: CommandView) -> LinkView<P> {
    LinkView { commands: link.commands.push(command), stages: link.stages, providers: link.providers }
}

/// The bridge after a script asked for `update` on the stage called `stage`:
/// the update is emitted for the stage's index where the stage is known, and
/// dropped where it is not.
pub open spec fn update_stage<P>(link: LinkView<P>, stage: Seq<char>, update: StageUpdateView) -> LinkView<P> {
    if link.stages.contains_key(stage) {
        emit(link, CommandView::UpdateStage(link.stages[stage], update))
    } else {
        link
    }
}

/// The bridge after a script asked to set the variable `name` of the stage
/// called `stage` to `value`.
pub open spec fn set_variable<P>(link: LinkView<P>, stage: Seq<char>, name: Seq<char>, value: TypedValue) -> LinkView<P> {
    update_stage(link, stage, StageUpdateView::SetNamedVariable(name, value))
}

/// The bridge after a script asked to bind the texture slot `slot` of the
/// stage called `stage` to `source`, naming the sampling mode by `sampling`:
/// a word that names no mode drops the request.
pub open spec fn bind_texture<P>(
    link: LinkView<P>,
    stage: Seq<char>,
    slot: Seq<char>,
    sampling: Seq<char>,
    source: Seq<char>,
) -> LinkView<P> {
    match sampling_mode_named(sampling) {
        Some(mode) => update_stage(link, stage, StageUpdateView::SetNamedTextureInput(slot, mode, source)),
        None => link,
    }
}

/// Whether `after` is a bridge that `before` can become when a script writes
/// `value` to the property `property` of the provider called `provider`:
/// a known provider takes the write and nothing else changes, and with an
/// unknown provider nothing changes at all.
pub open spec fn provider_written<P: InputProvider>(
    before: LinkView<P>,
    after: LinkView<P>,
    provider: Seq<char>,
    property: Seq<char>,
    value: TypedValue,
) -> bool {
    &&& after.commands == before.commands
    &&& after.stages == before.stages
    &&& if before.providers.contains_key(provider) {
        &&& after.providers == before.providers.insert(provider, after.providers[provider])
        &&& before.providers[provider].accepts(property, value, &after.providers[provider])
    } else {
        after.providers == before.providers
    }
}

/// Whether `after` is a bridge that `before` can become when a script reads
/// the property `property` of the provider called `provider` and the
/// read yields `answer`: a known provider is asked with [`QUERY_FLAG`] and
/// nothing else changes, and an unknown provider yields no answer and
/// changes nothing at all.
pub open spec fn provider_asked<P: InputProvider>(
    before: LinkView<P>,
    after: LinkView<P>,
    provider: Seq<char>,
    property: Seq<char>,
    answer: Option<TypedValue>,
) -> bool {
    &&& after.commands == before.commands
    &&& after.stages == before.stages
    &&& if before.providers.contains_key(provider) {
        &&& after.providers == before.providers.insert(provider, after.providers[provider])
        &&& before.providers[provider].answers(property, QUERY_FLAG, answer, &after.providers[provider])
    } else {
        &&& after.providers == before.providers
        &&& answer is None
    }
}

impl<P: InputProvider> WvrLink<P> {
    /// A bridge for one tick over the given tables, with nothing emitted yet.
    pub fn new(stage_index_list: NameTable<usize>, input_list: NameTable<P>) -> (link: Self)
        ensures
            link@ == (LinkView {
                commands: Seq::<CommandView>::empty(),
                stages: stage_index_list@,
                providers: input_list@,
            }),
    {
        let link = WvrLink { event_list: Vec::new(), stage_index_list, input_list, rng: rand::thread_rng() };
        assert(link@.commands =~= Seq::<CommandView>::empty());
        link
    }

    /// Appends `command` to the commands of this tick.
    fn push_command(&mut self, command: Command)
        ensures
            final(self)@ == emit(old(self)@, command@),
    {
        self.event_list.push(command);
        assert(commands_view(self.event_list@) =~= commands_view(old(self).event_list@).push(command@));
    }

    /// Emits `update` for the stage called `stage`, if there is such a stage.
    fn push_stage_update(&mut self, stage: &String, update: StageUpdate)
        ensures
            final(self)@ == update_stage(old(self)@, stage@, update@),
    {
        let found = match self.stage_index_list.get(stage) {
            Some(index) => Some(*index),
            None => None,
        };
        match found {
            Some(index) => self.push_command(Command::UpdateStage(index, update)),
            None => {},
        }
    }

    /// Hands `value` to the provider called `provider_name`, if there is one,
    /// as the new value of its property `variable_name`.
    fn write_property(&mut self, provider_name: &String, variable_name: &String, value: TypedValue)
        ensures
            provider_written(old(self)@, final(self)@, provider_name@, variable_name@, value),
    {
        match self.input_list.get_mut(provider_name) {
            Some(provider) => {
                provider.set_property(variable_name.as_str(), &value);
            },
            None => {},
        }
    }

    /// Asks the provider called `provider_name`, if there is one, for its
    /// property `variable_name`.
    fn ask_property(&mut self, provider_name: &String, variable_name: &String) -> (answer: Option<TypedValue>)
        ensures
            provider_asked(old(self)@, final(self)@, provider_name@, variable_name@, answer),
    {
        match self.input_list.get_mut(provider_name) {
            Some(provider) => provider.get(variable_name.as_str(), QUERY_FLAG),
            None => None,
        }
    }

    /// Draws a float uniformly from the half-open interval from zero to one.
    /// The result is the bit pattern of the double drawn.
    pub fn rnd_float(&mut self) -> (bits: u64)
        ensures
            final(self)@ == old(self)@,
            bits < 0x3ff0_0000_0000_0000,
    {
        draw_float(&mut self.rng)
    }

    /// Draws an integer uniformly from all 64-bit integers.
    pub fn rnd_int(&mut self) -> (number: i64)
        ensures
            final(self)@ == old(self)@,
    {
        draw_int(&mut self.rng)
    }

    /// Sets the global tempo to the double whose bit pattern is `bpm`.
    pub fn set_bpm(&mut self, bpm: u64)
        ensures
            final(self)@ == emit(old(self)@, CommandView::SetTempo(bpm)),
    {
        self.push_command(Command::SetTempo(bpm));
    }

    /// Writes a float, given as its bit pattern, to a property of a provider.
    pub fn set_provider_float(&mut self, provider_name: String, variable_name: String, value: u64)
        ensures
            provider_written(old(self)@, final(self)@, provider_name@, variable_name@, TypedValue::Float(value)),
    {
        self.write_property(&provider_name, &variable_name, TypedValue::Float(value));
    }

    /// Reads a property of a provider as a float, given as its bit pattern.
    pub fn get_provider_float(&mut self, provider_name: String, variable_name: String) -> (bits: u64)
        ensures
            exists|answer: Option<TypedValue>|
                #[trigger] provider_asked(old(self)@, final(self)@, provider_name@, variable_name@, answer)
                    && bits == float_reading(answer),
    {
        let answer = self.ask_property(&provider_name, &variable_name);
        read_float(answer)
    }

    /// Writes an integer to a property of a provider.
    pub fn set_provider_int(&mut self, provider_name: String, variable_name: String, value: i64)
        ensures
            provider_written(
                old(self)@,
                final(self)@,
                provider_name@,
                variable_name@,
                TypedValue::Int(low_word(value) as i32),
            ),
    {
        self.write_property(&provider_name, &variable_name, TypedValue::Int(int_component(value)));
    }

    /// Reads a property of a provider as an integer.
    pub fn get_provider_int(&mut self, provider_name: String, variable_name: String) -> (number: i64)
        ensures
            exists|answer: Option<TypedValue>|
                #[trigger] provider_asked(old(self)@, final(self)@, provider_name@, variable_name@, answer)
                    && number == int_reading(answer),
    {
        let answer = self.ask_property(&provider_name, &variable_name);
        read_int(answer)
    }

    /// Writes a boolean to a property of a provider.
    pub fn set_provider_bool(&mut self, provider_name: String, variable_name: String, value: bool)
        ensures
            provider_written(old(self)@, final(self)@, provider_name@, variable_name@, TypedValue::Bool(value)),
    {
        self.write_property(&provider_name, &variable_name, TypedValue::Bool(value));
    }

    /// Reads a property of a provider as a boolean.
    pub fn get_provider_bool(&mut self, provider_name: String, variable_name: String) -> (flag: bool)
        ensures
            exists|answer: Option<TypedValue>|
                #[trigger] provider_asked(old(self)@, final(self)@, provider_name@, variable_name@, answer)
                    && flag == bool_reading(answer),
    {
        let answer = self.ask_property(&provider_name, &variable_name);
        read_bool(answer)
    }

    /// Binds a texture slot of a stage to a source.
    pub fn set_stage_texture_input(&mut self, stage: String, texture_name: String, sampling: String, source_name: String)
        ensures
            final(self)@ == bind_texture(old(self)@, stage@, texture_name@, sampling@, source_name@),
    {
        match parse_sampling_mode(&sampling) {
            Some(mode) => {
                self.push_stage_update(&stage, StageUpdate::SetNamedTextureInput(texture_name, mode, source_name));
            },
            None => {},
        }
    }

    /// Sets a float variable of a stage.
    pub fn set_stage_float(&mut self, stage: String, variable_name: String, value: u64)
        ensures
            final(self)@ == set_variable(old(self)@, stage@, variable_name@, TypedValue::Float(value)),
    {
        self.push_stage_update(&stage, StageUpdate::SetNamedVariable(variable_name, TypedValue::Float(value)));
    }

    /// Sets a two-component float variable of a stage.
    pub fn set_stage_float2(&mut self, stage: String, variable_name: String, value_x: u64, value_y: u64)
        ensures
            final(self)@ == set_variable(
                old(self)@,
                stage@,
                variable_name@,
                TypedValue::Float2([value_x, value_y]),
            ),
    {
        let value = TypedValue::Float2([value_x, value_y]);
        self.push_stage_update(&stage, StageUpdate::SetNamedVariable(variable_name, value));
    }

    /// Sets a three-component float variable of a stage.
    pub fn set_stage_float3(
        &mut self,
        stage: String,
        variable_name: String,
        value_x: u64,
        value_y: u64,
        value_z: u64,
    )
        ensures
            final(self)@ == set_variable(
                old(self)@,
                stage@,
                variable_name@,
                TypedValue::Float3([value_x, value_y, value_z]),
            ),
    {
        let value = TypedValue::Float3([value_x, value_y, value_z]);
        self.push_stage_update(&stage, StageUpdate::SetNamedVariable(variable_name, value));
    }

    /// Sets a four-component float variable of a stage.
    pub fn set_stage_float4(
        &mut self,
        stage: String,
        variable_name: String,
        value_x: u64,
        value_y: u64,
        value_z: u64,
        value_w: u64,
    )
        ensures
            final(self)@ == set_variable(
                old(self)@,
                stage@,
                variable_name@,
                TypedValue::Float4([value_x, value_y, value_z, value_w]),
            ),
    {
        let value = TypedValue::Float4([value_x, value_y, value_z, value_w]);
        self.push_stage_update(&stage, StageUpdate::SetNamedVariable(variable_name, value));
    }

    /// Sets an integer variable of a stage to the low 32 bits of `value`.
    pub fn set_stage_int(&mut self, stage: String, variable_name: String, value: i64)
        ensures
            final(self)@ == set_variable(
                old(self)@,
                stage@,
                variable_name@,
                TypedValue::Int(low_word(value) as i32),
            ),
    {
        let value = TypedValue::Int(int_component(value));
        self.push_stage_update(&stage, StageUpdate::SetNamedVariable(variable_name, value));
    }

    /// Sets a two-component integer variable of a stage, each component to
    /// the low 32 bits of what is given for it.
    pub fn set_stage_int2(&mut self, stage: String, variable_name: String, value_x: i64, value_y: i64)
        ensures
            final(self)@ == set_variable(
                old(self)@,
                stage@,
                variable_name@,
                TypedValue::Int2([low_word(value_x) as i32, low_word(value_y) as i32]),
            ),
    {
        let value = TypedValue::Int2([int_component(value_x), int_component(value_y)]);
        self.push_stage_update(&stage, StageUpdate::SetNamedVariable(variable_name, value));
    }

    /// Sets a three-component integer variable of a stage, each component to
    /// the low 32 bits of what is given for it.
    pub fn set_stage_int3(
        &mut self,
        stage: String,
        variable_name: String,
        value_x: i64,
        value_y: i64,
        value_z: i64,
    )
        ensures
            final(self)@ == set_variable(
                old(self)@,
                stage@,
                variable_name@,
                TypedValue::Int3([low_word(value_x) as i32, low_word(value_y) as i32, low_word(value_z) as i32]),
            ),
    {
        let value = TypedValue::Int3([int_component(value_x), int_component(value_y), int_component(value_z)]);
        self.push_stage_update(&stage, StageUpdate::SetNamedVariable(variable_name, value));
    }

    /// Sets a four-component integer variable of a stage, each component to
    /// the low 32 bits of what is given for it.
    pub fn set_stage_int4(
        &mut self,
        stage: String,
        variable_name: String,
        value_x: i64,
        value_y: i64,
        value_z: i64,
        value_w: i64,
    )
        ensures
            final(self)@ == set_variable(
                old(self)@,
                stage@,
                variable_name@,
                TypedValue::Int4(
                    [
                        low_word(value_x) as i32,
                        low_word(value_y) as i32,
                        low_word(value_z) as i32,
                        low_word(value_w) as i32,
                    ],
                ),
            ),
    {
        let value = TypedValue::Int4(
            [int_component(value_x), int_component(value_y), int_component(value_z), int_component(value_w)],
        );
        self.push_stage_update(&stage, StageUpdate::SetNamedVariable(variable_name, value));
    }

    /// Sets a boolean variable of a stage. A script gives the boolean as an
    /// integer: one stands for true, every other number for false.
    pub fn set_stage_bool(&mut self, stage: String, variable_name: String, value: i64)
        ensures
            final(self)@ == set_variable(old(self)@, stage@, variable_name@, TypedValue::Bool(value == 1)),
    {
        let value = TypedValue::Bool(value == 1);
        self.push_stage_update(&stage, StageUpdate::SetNamedVariable(variable_name, value));
    }
}

/// A request that names a stage which is not in the stage table leaves the
/// bridge as it was: no command is added, whatever the request asks for.
pub proof fn lemma_unknown_stage_is_ignored<P>(
    link: LinkView<P>,
    stage: Seq<char>,
    update: StageUpdateView,
    name: Seq<char>,
    value: TypedValue,
    sampling: Seq<char>,
    source: Seq<char>,
)
    requires
        !link.stages.contains_key(stage),
    ensures
        update_stage(link, stage, update) == link,
        set_variable(link, stage, name, value) == link,
        bind_texture(link, stage, name, sampling, source) == link,
{
}

/// A request that names a provider which is not in the provider table leaves
/// the bridge as it was, provider table included. A read then yields the
/// default of its type: zero as a float, zero as an integer, `false` as a
/// boolean.
pub proof fn lemma_unknown_provider_is_ignored<P: InputProvider>(
    before: LinkView<P>,
    after: LinkView<P>,
    provider: Seq<char>,
    property: Seq<char>,
    value: TypedValue,
    answer: Option<TypedValue>,
)
    requires
        !before.providers.contains_key(provider),
    ensures
        provider_written(before, after, provider, property, value) ==> after == before,
        provider_asked(before, after, provider, property, answer) ==> {
            &&& after == before
            &&& float_reading(answer) == 0
            &&& int_reading(answer) == 0
            &&& bool_reading(answer) == false
        },
{
}

} // verus!
