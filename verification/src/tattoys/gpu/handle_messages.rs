//! What the pipeline of a shader does on a message to every task.
use crate::run::Input;
use crate::run::KeybindingAction;
use crate::run::Protocol;
use crate::tattoys::gpu::pipeline::GPU;
use crate::text::comes_before;
use crate::text::is_before;
use crate::text::lemma_before_is_transitive;
use crate::text::lemma_not_before_itself;
use crate::text::same_chars;
use vstd::prelude::*;

verus! {

/// What is left to do outside after a message has been taken in.
#[derive(Clone, Copy, Debug, PartialEq, Eq, Structural)]
pub enum GpuWork {
    Nothing,
    /// Every task is told to repaint.
    Repaint,
    /// The textures are made anew in the size that was noted.
    Resize,
    /// Another shader is chosen: the next one, or else the one before.
    CycleShader { forward: bool },
}

/// The terminal is higher than a picture of it can be counted.
#[derive(Clone, Copy, Debug, PartialEq, Eq, Structural)]
pub struct ResolutionError;

/// A shader cannot follow another.
#[derive(Clone, Copy, Debug, PartialEq, Eq, Structural)]
pub enum CycleError {
    /// The directory holds no shader.
    NoShaders,
}

/// Whether a text is among the names.
pub open spec fn is_among(names: Seq<Vec<char>>, name: Seq<char>) -> bool {
    exists|i: int| 0 <= i < names.len() && (#[trigger] names[i])@ == name
}

/// How often a text is among the names.
pub open spec fn count_of(names: Seq<Vec<char>>, name: Seq<char>) -> nat
    decreases names.len(),
{
    if names.len() == 0 {
        0
    } else {
        count_of(names.drop_last(), name) + if names.last()@ == name {
            1nat
        } else {
            0nat
        }
    }
}

/// Whether one text comes before another in the order in which the shaders
/// are gone through: the dictionary forward, or backward.
pub open spec fn precedes(left: Seq<char>, right: Seq<char>, forward: bool) -> bool {
    if forward {
        comes_before(left, right)
    } else {
        comes_before(right, left)
    }
}

/// Whether a name is the first of the names in the order in which the
/// shaders are gone through.
pub open spec fn is_first(names: Seq<Vec<char>>, name: Seq<char>, forward: bool) -> bool {
    &&& is_among(names, name)
    &&& forall|i: int| 0 <= i < names.len() ==> !precedes(#[trigger] names[i]@, name, forward)
}

/// Whether a name is the first of those names that come after `current`.
pub open spec fn is_next(names: Seq<Vec<char>>, current: Seq<char>, name: Seq<char>, forward: bool) -> bool {
    &&& is_among(names, name)
    &&& precedes(current, name, forward)
    &&& forall|i: int|
        0 <= i < names.len() && precedes(current, #[trigger] names[i]@, forward) ==> !precedes(
            names[i]@,
            name,
            forward,
        )
}

/// Whether any name comes after `current`.
pub open spec fn has_next(names: Seq<Vec<char>>, current: Seq<char>, forward: bool) -> bool {
    exists|i: int| 0 <= i < names.len() && precedes(current, #[trigger] names[i]@, forward)
}

/// Whether a name is the shader that follows `current`.
///
/// Where the current shader is not among the names, or is the last of them,
/// the first of the names follows. Where it is among them more than once,
/// it follows itself. Everywhere else the name next to it follows.
pub open spec fn follows(names: Seq<Vec<char>>, current: Seq<char>, name: Seq<char>, forward: bool) -> bool {
    if !is_among(names, current) {
        is_first(names, name, forward)
    } else if count_of(names, current) >= 2 {
        name == current
    } else if has_next(names, current, forward) {
        is_next(names, current, name, forward)
    } else {
        is_first(names, name, forward)
    }
}

fn is_preceding(left: &[char], right: &[char], forward: bool) -> (before: bool)
    ensures
        before == precedes(left@, right@, forward),
{
    if forward {
        is_before(left, right)
    } else {
        is_before(right, left)
    }
}

fn count_name(names: &Vec<Vec<char>>, name: &[char]) -> (count: usize)
    ensures
        count == count_of(names@, name@),
        count > 0 <==> is_among(names@, name@),
{
    let mut count: usize = 0;
    let mut index: usize = 0;
    while index < names.len()
        invariant
            index <= names.len(),
            count <= index,
            count == count_of(names@.take(index as int), name@),
            count > 0 <==> exists|i: int| 0 <= i < index && (#[trigger] names[i])@ == name@,
        decreases names.len() - index,
    {
        proof {
            assert(names@.take(index + 1).drop_last() =~= names@.take(index as int));
        }
        if same_chars(names[index].as_slice(), name) {
            count = count + 1;
        }
        index = index + 1;
    }
    proof {
        assert(names@.take(index as int) =~= names@);
    }
    count
}

/// Whether a name is looked at: every name is, or every name that comes
/// after a given one.
pub open spec fn passes(after: Option<&[char]>, name: Seq<char>, forward: bool) -> bool {
    match after {
        Some(current) => precedes(current@, name, forward),
        None => true,
    }
}

/// The first of the names that are looked at, in the order in which the
/// shaders are gone through.
fn first_name(names: &Vec<Vec<char>>, after: Option<&[char]>, forward: bool) -> (found: Option<usize>)
    ensures
        match found {
            Some(at) => {
                &&& at < names.len()
                &&& passes(after, names[at as int]@, forward)
                &&& forall|i: int|
                    0 <= i < names.len() && passes(after, names[i]@, forward) ==> !precedes(
                        #[trigger] names[i]@,
                        names[at as int]@,
                        forward,
                    )
            },
            None => forall|i: int|
                0 <= i < names.len() ==> !passes(after, #[trigger] names[i]@, forward),
        },
{
    let mut best: Option<usize> = None;
    let mut index: usize = 0;
    while index < names.len()
        invariant
            index <= names.len(),
            match best {
                Some(at) => {
                    &&& at < index
                    &&& passes(after, names[at as int]@, forward)
                    &&& forall|i: int|
                        0 <= i < index && passes(after, names[i]@, forward) ==> !precedes(
                            #[trigger] names[i]@,
                            names[at as int]@,
                            forward,
                        )
                },
                None => forall|i: int|
                    0 <= i < index ==> !passes(after, #[trigger] names[i]@, forward),
            },
        decreases names.len() - index,
    {
        let looked_at = match after {
            Some(current) => is_preceding(current, names[index].as_slice(), forward),
            None => true,
        };
        if looked_at {
            match best {
                None => {
                    proof {
                        lemma_not_before_itself(names[index as int]@);
                    }
                    best = Some(index);
                },
                Some(at) => {
                    if is_preceding(names[index].as_slice(), names[at].as_slice(), forward) {
                        proof {
                            lemma_not_before_itself(names[index as int]@);
                            assert forall|i: int|
                                0 <= i < index + 1 && passes(after, names[i]@, forward) implies !precedes(
                                #[trigger] names[i]@,
                                names[index as int]@,
                                forward,
                            ) by {
                                if i < index {
                                    if precedes(names[i]@, names[index as int]@, forward) {
                                        if forward {
                                            lemma_before_is_transitive(
                                                names[i]@,
                                                names[index as int]@,
                                                names[at as int]@,
                                            );
                                        } else {
                                            lemma_before_is_transitive(
                                                names[at as int]@,
                                                names[index as int]@,
                                                names[i]@,
                                            );
                                        }
                                    }
                                }
                            }
                        }
                        best = Some(index);
                    }
                },
            }
        }
        index = index + 1;
    }
    best
}

impl GPU {
    /// Whether `after` is this pipeline after it has taken a message in, and
    /// `work` what is then left to do outside.
    pub open spec fn takes_message(&self, after: &GPU, message: Protocol, work: Result<
        GpuWork,
        ResolutionError,
    >) -> bool {
        match message {
            Protocol::Output(_) | Protocol::Config(_) => {
                &&& work == Ok::<GpuWork, ResolutionError>(GpuWork::Repaint)
                &&& *after == *self
            },
            Protocol::Resize { width, height } => if height * 2 <= u16::MAX {
                &&& work == Ok::<GpuWork, ResolutionError>(GpuWork::Resize)
                &&& *after == (GPU { width, height: (height * 2) as u16, ..*self })
            } else {
                &&& work is Err
                &&& *after == *self
            },
            Protocol::Input(Input::Mouse { x, y }) => {
                &&& work == Ok::<GpuWork, ResolutionError>(GpuWork::Nothing)
                &&& *after == (GPU { mouse: (x, y), ..*self })
            },
            Protocol::KeybindEvent(KeybindingAction::ShaderPrev) => {
                &&& work == Ok::<GpuWork, ResolutionError>(GpuWork::CycleShader { forward: false })
                &&& *after == *self
            },
            Protocol::KeybindEvent(KeybindingAction::ShaderNext) => {
                &&& work == Ok::<GpuWork, ResolutionError>(GpuWork::CycleShader { forward: true })
                &&& *after == *self
            },
            _ => {
                &&& work == Ok::<GpuWork, ResolutionError>(GpuWork::Nothing)
                &&& *after == *self
            },
        }
    }

    /// Takes a message in, and says what is left to do outside.
    ///
    /// New output and new settings call for a repaint. A resize is noted:
    /// the picture is as wide as the terminal and twice as high. The place
    /// of the mouse is noted. The keys for the shader before and the shader
    /// after call for another shader.
    pub fn handle_protocol_message(&mut self, message: &Protocol) -> (work: Result<
        GpuWork,
        ResolutionError,
    >)
        ensures
            old(self).takes_message(final(self), *message, work),
            work is Err <==> (*message matches Protocol::Resize { height, .. } && height * 2
                > u16::MAX),
    {
        match message {
            Protocol::Output(_) => Ok(GpuWork::Repaint),
            Protocol::Config(_) => Ok(GpuWork::Repaint),
            Protocol::Resize { width, height } => {
                if *height > u16::MAX / 2 {
                    return Err(ResolutionError);
                }
                self.update_resolution(*width, *height * 2);
                Ok(GpuWork::Resize)
            },
            Protocol::Input(Input::Mouse { x, y }) => {
                self.update_mouse_position(*x, *y);
                Ok(GpuWork::Nothing)
            },
            Protocol::KeybindEvent(KeybindingAction::ShaderPrev) => Ok(
                GpuWork::CycleShader { forward: false },
            ),
            Protocol::KeybindEvent(KeybindingAction::ShaderNext) => Ok(
                GpuWork::CycleShader { forward: true },
            ),
            _ => Ok(GpuWork::Nothing),
        }
    }

    /// Chooses the shader that follows the current one among the files of
    /// its directory, in the order of the dictionary or against it.
    #[verifier::loop_isolation(false)]
    pub fn cycle_shader(all_shaders: &Vec<Vec<char>>, current_filename: &[char], direction: bool) -> (chosen:
        Result<usize, CycleError>)
        ensures
            chosen is Err <==> all_shaders.len() == 0,
            chosen matches Err(error) ==> error == CycleError::NoShaders,
            chosen matches Ok(at) ==> at < all_shaders.len() && follows(
                all_shaders@,
                current_filename@,
                all_shaders[at as int]@,
                direction,
            ),
    {
        if all_shaders.len() == 0 {
            return Err(CycleError::NoShaders);
        }
        let count = count_name(all_shaders, current_filename);
        if count >= 2 {
            let mut index: usize = 0;
            while index < all_shaders.len()
                invariant
                    index <= all_shaders.len(),
                    is_among(all_shaders@, current_filename@),
                    forall|i: int| 0 <= i < index ==> (#[trigger] all_shaders[i])@ != current_filename@,
                decreases all_shaders.len() - index,
            {
                if same_chars(all_shaders[index].as_slice(), current_filename) {
                    return Ok(index);
                }
                index = index + 1;
            }
            return Ok(0);
        }
        if count == 1 {
            if let Some(at) = first_name(all_shaders, Some(current_filename), direction) {
                return Ok(at);
            }
        }
        match first_name(all_shaders, None, direction) {
            Some(at) => Ok(at),
            None => {
                Ok(0)
            },
        }
    }
}

} // verus!
