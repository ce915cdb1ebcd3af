use vstd::prelude::*;

verus! {

/// How the output is coloured, as chosen on the command line.
#[derive(Clone, Copy, Debug, PartialEq, Eq, Structural)]
pub enum ColorValue {
    /// Try very hard to emit colours.
    Always,
    /// Like `Always`, but only ever with ANSI colour codes.
    AlwaysAnsi,
    /// Colour when the terminal supports it.
    Auto,
    /// Never colour.
    Never,
}

impl Default for ColorValue {
    /// `Auto`.
    fn default() -> (r: Self)
        ensures
            r == ColorValue::Auto,
    {
        ColorValue::Auto
    }
}

} // verus!
