use vstd::prelude::*;

verus! {

/// What a probe of one directory for the `DEV` marker file found.
#[derive(Clone, Copy, Debug, PartialEq, Eq, Structural)]
pub enum MarkerProbe {
    /// The directory itself could not be resolved.
    Unresolved,
    /// The directory was resolved and holds no regular file named `DEV`.
    Absent,
    /// The directory holds a regular file named `DEV`.
    Present,
}

/// The directories the scan looks in, in the order it looks.
#[derive(Clone, Copy, Debug, PartialEq, Eq, Structural)]
pub enum MarkerLocation {
    /// The directory that holds the running executable.
    ExecutableDir,
    /// The process's current working directory.
    WorkingDir,
}

/// Progress of the search for the developer-marker file.
///
/// The caller probes the directory that `next_location` names, feeds the outcome to
/// `advance`, and repeats until the scan is finished.
#[derive(Clone, Copy, Debug, PartialEq, Eq, Structural)]
pub enum DevMarkerScan {
    /// The given directory is to be probed next.
    Probing(MarkerLocation),
    /// The search is over, with its verdict.
    Finished(bool),
}

/// Whether the marker counts as found, given what each directory held.
pub open spec fn marker_found(exe_dir: MarkerProbe, working_dir: MarkerProbe) -> bool {
    exe_dir == MarkerProbe::Present || working_dir == MarkerProbe::Present
}

/// The scan after `probe` came back for the directory it was waiting on.
pub open spec fn scan_after(scan: DevMarkerScan, probe: MarkerProbe) -> DevMarkerScan {
    match scan {
        DevMarkerScan::Probing(MarkerLocation::ExecutableDir) => if probe == MarkerProbe::Present {
            DevMarkerScan::Finished(true)
        } else {
            DevMarkerScan::Probing(MarkerLocation::WorkingDir)
        },
        DevMarkerScan::Probing(MarkerLocation::WorkingDir) => DevMarkerScan::Finished(
            probe == MarkerProbe::Present,
        ),
        DevMarkerScan::Finished(found) => DevMarkerScan::Finished(found),
    }
}

/// Where a full scan ends when the two directories hold what is given.
pub open spec fn scan_outcome(exe_dir: MarkerProbe, working_dir: MarkerProbe) -> DevMarkerScan {
    let first = scan_after(DevMarkerScan::Probing(MarkerLocation::ExecutableDir), exe_dir);
    match first {
        DevMarkerScan::Finished(_) => first,
        DevMarkerScan::Probing(_) => scan_after(first, working_dir),
    }
}

impl DevMarkerScan {
    /// A scan that has looked nowhere yet.
    pub fn new() -> (r: DevMarkerScan)
        ensures
            r == DevMarkerScan::Probing(MarkerLocation::ExecutableDir),
    {
        DevMarkerScan::Probing(MarkerLocation::ExecutableDir)
    }

    /// The directory to probe next, or `None` once the verdict is in.
    pub fn next_location(&self) -> (r: Option<MarkerLocation>)
        ensures
            r matches Some(loc) ==> *self == DevMarkerScan::Probing(loc),
            r is None <==> self is Finished,
    {
        match *self {
            DevMarkerScan::Probing(loc) => Some(loc),
            DevMarkerScan::Finished(_) => None,
        }
    }

    /// Takes in what the probe of `next_location` found.
    ///
    /// A finished scan stays as it is.
    pub fn advance(self, probe: MarkerProbe) -> (r: DevMarkerScan)
        ensures
            r == scan_after(self, probe),
    {
        match self {
            DevMarkerScan::Probing(MarkerLocation::ExecutableDir) => {
                if probe == MarkerProbe::Present {
                    DevMarkerScan::Finished(true)
                } else {
                    DevMarkerScan::Probing(MarkerLocation::WorkingDir)
                }
            },
            DevMarkerScan::Probing(MarkerLocation::WorkingDir) => {
                DevMarkerScan::Finished(probe == MarkerProbe::Present)
            },
            DevMarkerScan::Finished(found) => DevMarkerScan::Finished(found),
        }
    }

    /// The verdict, once the scan is finished.
    pub fn verdict(&self) -> (r: Option<bool>)
        ensures
            r matches Some(found) ==> *self == DevMarkerScan::Finished(found),
            r is None <==> self is Probing,
    {
        match *self {
            DevMarkerScan::Finished(found) => Some(found),
            DevMarkerScan::Probing(_) => None,
        }
    }
}

/// A full scan ends with `true` exactly when a `DEV` file is in the executable's
/// directory or in the working directory, and with `false` otherwise, also when
/// either directory could not be resolved. It never needs more than two probes.
pub proof fn lemma_scan_decides(exe_dir: MarkerProbe, working_dir: MarkerProbe)
    ensures
        scan_outcome(exe_dir, working_dir) == DevMarkerScan::Finished(
            marker_found(exe_dir, working_dir),
        ),
{
}

/// When the executable's directory holds the marker, the scan is finished at once:
/// the working directory is never asked for.
pub proof fn lemma_scan_short_circuits(exe_dir: MarkerProbe)
    requires
        exe_dir == MarkerProbe::Present,
    ensures
        scan_after(DevMarkerScan::Probing(MarkerLocation::ExecutableDir), exe_dir)
            == DevMarkerScan::Finished(true),
        forall|working_dir: MarkerProbe|
            #[trigger] scan_outcome(exe_dir, working_dir) == DevMarkerScan::Finished(true),
{
}

} // verus!
