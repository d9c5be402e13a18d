// A falling-block puzzle engine: the board and its collision rules, the
// tetromino catalog with its wall kicks, the clearing of full rows and the
// fall of the chunks left above them, and the stacks of states that run a
// session from the menu to the score screen.

// Seven kinds, their rotation states and the wall-kick table.
pub mod tetromino;
// The board: collision, merging, full rows.
pub mod field;
// Chunks of neighbouring blocks: extraction by flood fill and their fall.
pub mod chunk;
// The session: score, tier, multipliers, the active piece and its rotation.
pub mod session;
// The stack machine that runs states.
pub mod machine;
// The phases of play: falling, dropping, clearing rows, chunk fall.
pub mod phases;
// The screens and the per-frame entry point.
pub mod screens;
// Preview figures.
pub mod figure;
