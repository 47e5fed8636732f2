//! The shape of an SGR escape sequence: `ESC [`, parameters joined by `;`, `m`.
use vstd::prelude::*;

verus! {

/// The parameters in their order, with a `;` between each two.
pub open spec fn join(tokens: Seq<Seq<char>>) -> Seq<char>
    decreases tokens.len(),
{
    if tokens.len() == 0 {
        Seq::empty()
    } else if tokens.len() == 1 {
        tokens[0]
    } else {
        join(tokens.drop_last()) + seq![';'] + tokens.last()
    }
}

/// The escape sequence that carries the given parameters. With no parameter
/// at all it is still the wrapper, `ESC [ m`.
pub open spec fn escape(tokens: Seq<Seq<char>>) -> Seq<char> {
    seq!['\x1b', '['] + join(tokens) + seq!['m']
}

/// The parameters that give both channels back to the terminal's defaults.
pub open spec fn reset_params() -> Seq<Seq<char>> {
    seq![seq!['3', '9'], seq!['4', '9']]
}

/// The reset sequence, `ESC [ 3 9 ; 4 9 m`.
pub open spec fn reset() -> Seq<char> {
    escape(reset_params())
}

/// What each string of a list holds, in the list's order.
pub open spec fn token_views(tokens: Seq<String>) -> Seq<Seq<char>> {
    Seq::new(tokens.len(), |i: int| tokens[i]@)
}

/// The reset sequence, character by character.
pub proof fn lemma_reset_chars()
    ensures
        reset() == seq!['\x1b', '[', '3', '9', ';', '4', '9', 'm'],
{
    reveal_with_fuel(join, 3);
}

} // verus!
