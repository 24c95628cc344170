//! Drawing types and the shader program each is drawn with.

use vstd::prelude::*;

verus! {

/// How a drawing's vertices are laid out and which program draws them.
#[derive(Debug, Clone, Copy, PartialEq, Eq)]
pub enum DrawingType {
    Plain,
    Text,
}

/// The position of the program that draws `drawing_type`: plain drawings
/// first, text second.
pub open spec fn program_index(drawing_type: DrawingType) -> nat {
    match drawing_type {
        DrawingType::Plain => 0,
        DrawingType::Text => 1,
    }
}

/// The number of shader programs, one per drawing type.
pub const PROGRAM_COUNT: usize = 2;

/// The program that draws `drawing_type`.
pub fn get_index(drawing_type: &DrawingType) -> (index: usize)
    ensures
        index == program_index(*drawing_type),
        index < PROGRAM_COUNT,
{
    match drawing_type {
        DrawingType::Plain => 0,
        DrawingType::Text => 1,
    }
}

/// Each drawing type has a program of its own.
pub proof fn lemma_program_per_type(a: DrawingType, b: DrawingType)
    ensures
        program_index(a) < PROGRAM_COUNT,
        program_index(a) == program_index(b) <==> a == b,
{
}

/// Reads the depth of the frame buffer under the cursor.
#[derive(Debug, Clone, Copy, PartialEq, Eq)]
pub struct GLZFinder {}

} // verus!
