use vstd::prelude::*;

verus! {

/// The host platform the build driver runs on, which selects the
/// linker-flag dialect passed through clang's `-Wl,` driver.
#[derive(Clone, Copy, Debug, PartialEq, Eq, Structural)]
pub enum Platform {
    /// Mach-O hosts (the macOS-style linker driver).
    MachO,
    /// ELF hosts (the GNU-style linker driver).
    Elf,
}

} // verus!
