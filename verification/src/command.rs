use vstd::prelude::*;

verus! {

/// How a texture input is sampled.
#[derive(Clone, Copy, Debug, PartialEq, Eq)]
pub enum SamplingMode {
    Nearest,
    Linear,
    Mipmaps,
}

/// A typed value as the render engine stores it in a stage variable or a
/// provider property.
///
/// Floating-point components are carried as the IEEE 754 bit pattern of the
/// double-precision number that the script handed over; the library moves
/// them and never computes on them.
#[derive(Clone, Copy, Debug, PartialEq, Eq)]
pub enum TypedValue {
    Float(u64),
    Float2([u64; 2]),
    Float3([u64; 3]),
    Float4([u64; 4]),
    Int(i32),
    Int2([i32; 2]),
    Int3([i32; 3]),
    Int4([i32; 4]),
    Bool(bool),
}

/// The 32-bit integer that has the low 32 bits of `number`: the one integer
/// from -2^31 up to, but not including, 2^31 that differs from `number` by a
/// multiple of 2^32.
pub open spec fn low_word(number: i64) -> int {
    let rest = number % 0x1_0000_0000;
    if rest < 0x8000_0000 {
        rest as int
    } else {
        rest - 0x1_0000_0000
    }
}

/// Cuts a script's 64-bit integer down to the 32 bits that the render engine
/// stores, keeping the low bits as a cast does.
pub fn int_component(number: i64) -> (word: i32)
    ensures
        word == low_word(number),
{
    let word = number as i32;
    assert(word == low_word(number)) by (bit_vector)
        requires
            word == number as i32,
    ;
    word
}

/// A change to one render stage.
#[derive(Clone, Debug, PartialEq, Eq)]
pub enum StageUpdate {
    /// Set the variable of that name to the value.
    SetNamedVariable(String, TypedValue),
    /// Bind the texture slot of that name to the named source, sampled in
    /// the given mode.
    SetNamedTextureInput(String, SamplingMode, String),
}

/// One instruction of a tick to the render engine.
#[derive(Clone, Debug, PartialEq, Eq)]
pub enum Command {
    /// Set the global tempo, given as the bit pattern of a double.
    SetTempo(u64),
    /// Apply the update to the stage with that index.
    UpdateStage(usize, StageUpdate),
}

/// What a [`StageUpdate`] says, with its names as sequences of characters.
pub enum StageUpdateView {
    SetNamedVariable(Seq<char>, TypedValue),
    SetNamedTextureInput(Seq<char>, SamplingMode, Seq<char>),
}

/// What a [`Command`] says.
pub enum CommandView {
    SetTempo(u64),
    UpdateStage(usize, StageUpdateView),
}

impl View for StageUpdate {
    type V = StageUpdateView;

    open spec fn view(&self) -> StageUpdateView {
        match self {
            StageUpdate::SetNamedVariable(name, value) => StageUpdateView::SetNamedVariable(name@, *value),
            StageUpdate::SetNamedTextureInput(slot, mode, source) => StageUpdateView::SetNamedTextureInput(
                slot@,
                *mode,
                source@,
            ),
        }
    }
}

impl View for Command {
    type V = CommandView;

    open spec fn view(&self) -> CommandView {
        match self {
            Command::SetTempo(tempo) => CommandView::SetTempo(*tempo),
            Command::UpdateStage(stage, update) => CommandView::UpdateStage(*stage, update@),
        }
    }
}

/// What a list of commands says, in order.
pub open spec fn commands_view(list: Seq<Command>) -> Seq<CommandView> {
    list.map_values(|command: Command| command@)
}

/// The sampling mode that a script names by `text`, if it names one:
/// exactly `Nearest`, `Linear` and `Mipmaps` are understood.
pub open spec fn sampling_mode_named(text: Seq<char>) -> Option<SamplingMode> {
    if text == "Nearest"@ {
        Some(SamplingMode::Nearest)
    } else if text == "Linear"@ {
        Some(SamplingMode::Linear)
    } else if text == "Mipmaps"@ {
        Some(SamplingMode::Mipmaps)
    } else {
        None
    }
}

/// Reads a sampling mode from the word that a script used for it.
pub fn parse_sampling_mode(text: &String) -> (mode: Option<SamplingMode>)
    ensures
        mode == sampling_mode_named(text@),
{
    let word = text.as_str();
    if str_equal(word, "Nearest") {
        Some(SamplingMode::Nearest)
    } else if str_equal(word, "Linear") {
        Some(SamplingMode::Linear)
    } else if str_equal(word, "Mipmaps") {
        Some(SamplingMode::Mipmaps)
    } else {
        None
    }
}

/// Whether two string slices hold the same characters.
fn str_equal(left: &str, right: &str) -> (same: bool)
    ensures
        same == (left@ == right@),
{
    let a = left.to_owned();
    let b = right.to_owned();
    a == b
}

} // verus!
