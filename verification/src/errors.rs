use vstd::prelude::*;

verus! {

/// Everything this tool can fail with: the configuration file could not be
/// read, its contents are not a well-formed configuration, a command-line
/// argument is rejected, a preset name has no match, or the request could not
/// be sent. `ConfigRead` and `Network` arise only at the I/O boundary; the
/// library itself produces the other three.
#[derive(Clone, Copy, Debug, PartialEq, Eq, Structural)]
pub enum HueError {
    ConfigRead,
    ConfigParse,
    InvalidArgument,
    PresetLookup,
    Network,
}

} // verus!
