use vstd::prelude::*;

verus! {

/// The navigation keys a menu reacts to.
#[derive(PartialEq, Eq, Structural, Clone, Copy, Debug)]
pub enum FunctionKey {
    UP,
    DOWN,
    LEFT,
    RIGHT,
    ENTER,
    BACK,
}

/// One input event: an optional function key and optional raw character bytes.
pub struct KeyboardKey {
    pub function_key: Option<FunctionKey>,
    pub char_input: Option<Vec<u8>>,
}

impl KeyboardKey {
    pub fn new(function_key: Option<FunctionKey>, char_input: Option<Vec<u8>>) -> (r: KeyboardKey)
        ensures
            r.function_key == function_key,
            r.char_input == char_input,
    {
        KeyboardKey { function_key, char_input }
    }
}

} // verus!
