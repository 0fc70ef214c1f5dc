use vstd::prelude::*;

verus! {

/// Switches for the compression passes of the minifier stage of the
/// surrounding toolchain. Only the configuration lives here: the passes
/// themselves work on a full program syntax tree that this crate does not
/// model.
#[derive(Clone, Copy, Debug, PartialEq, Eq, Structural)]
pub struct CompressOptions {
    pub booleans: bool,
    pub drop_debugger: bool,
    pub drop_console: bool,
    pub evaluate: bool,
    pub join_vars: bool,
    pub loops: bool,
    pub typeofs: bool,
}

impl Default for CompressOptions {
    /// Every pass on, except dropping console calls.
    fn default() -> (r: Self)
        ensures
            r == (CompressOptions {
                booleans: true,
                drop_debugger: true,
                drop_console: false,
                evaluate: true,
                join_vars: true,
                loops: true,
                typeofs: true,
            }),
    {
        CompressOptions {
            booleans: true,
            drop_debugger: true,
            drop_console: false,
            evaluate: true,
            join_vars: true,
            loops: true,
            typeofs: true,
        }
    }
}

/// Options of the minifier: whether to mangle names, and how to compress.
#[derive(Clone, Copy, Debug, PartialEq, Eq, Structural)]
pub struct MinifierOptions {
    pub mangle: bool,
    pub compress: CompressOptions,
}

impl Default for MinifierOptions {
    fn default() -> (r: Self)
        ensures
            r.mangle,
            r.compress == (CompressOptions {
                booleans: true,
                drop_debugger: true,
                drop_console: false,
                evaluate: true,
                join_vars: true,
                loops: true,
                typeofs: true,
            }),
    {
        MinifierOptions { mangle: true, compress: CompressOptions::default() }
    }
}

/// The minifier driver: it holds its options until the surrounding
/// toolchain hands it a program to work on.
pub struct Minifier {
    options: MinifierOptions,
}

impl Minifier {
    /// The options the minifier was built with.
    pub closed spec fn spec_options(&self) -> MinifierOptions {
        self.options
    }

    pub fn new(options: MinifierOptions) -> (r: Self)
        ensures
            r.spec_options() == options,
    {
        Minifier { options }
    }
}

} // verus!
