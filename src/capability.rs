use vstd::prelude::*;

verus! {

/// A host privilege granted to the embedded web content by a plugin.
#[derive(Clone, Copy, Debug, PartialEq, Eq, Structural)]
pub enum Capability {
    /// Spawning host-OS subprocesses.
    Shell,
    /// Issuing network requests.
    Http,
}

/// How many plugins the application attaches before it starts.
pub const PLUGIN_COUNT: usize = 2;

/// The plugins the application attaches, in the order it attaches them.
pub open spec fn required_plugins() -> Seq<Capability> {
    seq![Capability::Shell, Capability::Http]
}

/// The plugin attached in position `i` (from zero).
pub fn required_plugin(i: usize) -> (r: Capability)
    requires
        i < PLUGIN_COUNT,
    ensures
        r == required_plugins()[i as int],
{
    if i == 0 {
        Capability::Shell
    } else {
        Capability::Http
    }
}

} // verus!
