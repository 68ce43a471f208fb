//! The plain values that the host and the plugins exchange.

use vstd::prelude::*;

verus! {

/// The C `int` of the OpenFX interface.
pub type Int = i32;

/// The C `unsigned int` of the OpenFX interface.
pub type UnsignedInt = u32;

/// The address of a C string.
pub type CharPtr = usize;

/// The address of an object that only the host knows.
pub type VoidPtr = usize;

/// The address of a property set.
pub type OfxPropertySetHandle = usize;

/// The version of the interface that a plugin implements.
#[derive(Clone, Copy, Debug, PartialEq, Eq)]
pub struct ApiVersion(pub Int);

/// The major and the minor version of a plugin.
#[derive(Clone, Copy, Debug, PartialEq, Eq)]
pub struct PluginVersion(pub UnsignedInt, pub UnsignedInt);

/// What the host sends to a plugin. `H` is what describes the host.
#[derive(Debug, PartialEq, Eq)]
pub enum RawMessage<H> {
    SetHost { host: H },
    MainEntry {
        action: CharPtr,
        handle: VoidPtr,
        in_args: OfxPropertySetHandle,
        out_args: OfxPropertySetHandle,
    },
}

/// Why a request was not carried out. `E` is what a plugin's own code reports.
#[derive(Debug, PartialEq, Eq)]
pub enum Error<E> {
    /// No plugin is registered for the module.
    PluginNotFound,
    /// The host left the function out of the suite.
    SuiteNotInitialized,
    /// The plugin was called, and failed.
    Plugin(E),
}

/// A reply of a plugin, as the library reports it.
pub open spec fn plugin_reply<E>(reply: Result<Int, E>) -> Result<Int, Error<E>> {
    match reply {
        Ok(status) => Ok(status),
        Err(error) => Err(Error::Plugin(error)),
    }
}

} // verus!
