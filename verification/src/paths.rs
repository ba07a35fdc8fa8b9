//! The directories that the daemon and its worker live in.

use vstd::prelude::*;

verus! {

/// The directories of one installation.
#[derive(Clone, Debug)]
pub struct Paths {
    /// Where the configuration is read from.
    pub config: String,
    /// Where packages are installed.
    pub packages: String,
    /// Where lock files and endpoints are kept.
    pub runtime: String,
}

/// What [`Paths`] holds, as text.
pub struct PathsView {
    pub config: Seq<char>,
    pub packages: Seq<char>,
    pub runtime: Seq<char>,
}

impl View for Paths {
    type V = PathsView;

    open spec fn view(&self) -> PathsView {
        PathsView { config: self.config@, packages: self.packages@, runtime: self.runtime@ }
    }
}

/// What is known about the machine when the runtime directory is chosen. `P`
/// is the type of a path.
#[derive(Clone, Debug)]
pub struct RuntimeProbe<P> {
    /// A runtime directory that is already in use, if there is one.
    pub established: Option<P>,
    /// Whether the installation is a portable one.
    pub portable_mode: bool,
    /// The runtime directory of a portable installation, if one can be named.
    pub portable_path: Option<P>,
    /// The runtime directory that the platform provides for.
    pub default_path: P,
}

/// The runtime directory that was chosen.
#[derive(Clone, Debug)]
pub struct RuntimeDir<P> {
    /// The directory.
    pub path: P,
    /// Whether the directory, with all its missing parents, has to be created
    /// before it is used.
    pub create: bool,
}

/// Why no runtime directory could be chosen.
#[derive(Clone, Copy, Debug, PartialEq, Eq, Structural)]
pub enum RuntimeDirError {
    /// The installation is portable, and its runtime directory cannot be named.
    PortablePathUnavailable,
}

/// The runtime directory of an installation.
///
/// A directory that the caller insists on is taken as it is. Failing that, a
/// directory that is already in use is taken. Failing that too, the directory
/// is the one of a portable installation, or else the one that the platform
/// provides for, and it has to be created.
pub open spec fn runtime_choice<P>(force: Option<P>, probe: RuntimeProbe<P>) -> Result<
    RuntimeDir<P>,
    RuntimeDirError,
> {
    if let Some(path) = force {
        Ok(RuntimeDir { path, create: false })
    } else if let Some(path) = probe.established {
        Ok(RuntimeDir { path, create: false })
    } else if !probe.portable_mode {
        Ok(RuntimeDir { path: probe.default_path, create: true })
    } else if let Some(path) = probe.portable_path {
        Ok(RuntimeDir { path, create: true })
    } else {
        Err(RuntimeDirError::PortablePathUnavailable)
    }
}

/// Chooses the runtime directory: `force_runtime_dir` where it is given, else
/// the directory already in use, else a fresh default that the caller is told
/// to create. Fails only for a portable installation whose runtime directory
/// cannot be named, and then only where neither of the first two is there.
pub fn extract_runtime<P>(force_runtime_dir: Option<P>, probe: RuntimeProbe<P>) -> (chosen: Result<
    RuntimeDir<P>,
    RuntimeDirError,
>)
    ensures
        chosen == runtime_choice(force_runtime_dir, probe),
{
    if let Some(path) = force_runtime_dir {
        return Ok(RuntimeDir { path, create: false });
    }
    if let Some(path) = probe.established {
        return Ok(RuntimeDir { path, create: false });
    }
    if !probe.portable_mode {
        return Ok(RuntimeDir { path: probe.default_path, create: true });
    }
    match probe.portable_path {
        Some(path) => Ok(RuntimeDir { path, create: true }),
        None => Err(RuntimeDirError::PortablePathUnavailable),
    }
}

} // verus!
