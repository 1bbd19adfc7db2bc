//! Choosing the camera among the frame sources that a capture device offers.
use vstd::prelude::*;
use crate::error::CameraError;

verus! {

/// The kind of a media frame source, as the capture device reports it.
#[derive(Clone, Copy, Debug, PartialEq, Eq, Structural)]
pub enum FrameSourceKind {
    Custom,
    Color,
    Infrared,
    Depth,
    Audio,
    Image,
    Metadata,
}

/// The outcome of scanning the frame sources for a color camera.
#[derive(Debug)]
pub enum SourceChoice<E> {
    /// The source at this position is the first color source.
    Chosen(usize),
    /// Reading the kind of a source failed before any color source was met.
    Failed(E),
    /// Every source was read and none is a color source.
    NoCamera,
}

/// Whether the scan stops at a source whose kind was read as `probe`: at a
/// color source, or at a source whose kind could not be read.
pub open spec fn ends_scan<E>(probe: Result<FrameSourceKind, E>) -> bool {
    match probe {
        Ok(kind) => kind == FrameSourceKind::Color,
        Err(_) => true,
    }
}

/// Every probe before position `n` was read and is not a color source.
pub open spec fn passed_over<E>(probes: Seq<Result<FrameSourceKind, E>>, n: int) -> bool {
    forall|j: int| 0 <= j < n ==> !ends_scan(#[trigger] probes[j])
}

/// The scan of `probes` in order, stopping at the first color source or the
/// first failure.
pub open spec fn source_choice_spec<E>(probes: Seq<Result<FrameSourceKind, E>>, choice: SourceChoice<E>) -> bool {
    match choice {
        SourceChoice::Chosen(i) => {
            &&& i < probes.len()
            &&& probes[i as int] == Ok::<FrameSourceKind, E>(FrameSourceKind::Color)
            &&& passed_over(probes, i as int)
        },
        SourceChoice::Failed(e) => exists|i: int|
            0 <= i < probes.len() && #[trigger] probes[i] == Err::<FrameSourceKind, E>(e)
                && passed_over(probes, i),
        SourceChoice::NoCamera => passed_over(probes, probes.len() as int),
    }
}

/// Whether the scan ends at a source whose kind was read as `probe`; the
/// caller reads no further source once this is true.
pub fn stops_scan<E>(probe: &Result<FrameSourceKind, E>) -> (stop: bool)
    ensures
        stop == ends_scan(*probe),
{
    match probe {
        Ok(kind) => match kind {
            FrameSourceKind::Color => true,
            _ => false,
        },
        Err(_) => true,
    }
}

/// Scans the kinds read from the frame sources, in the device's order, and
/// picks the first color source; a failure to read a kind before that ends
/// the scan with the failure.
pub fn choose_color_source<E>(probes: Vec<Result<FrameSourceKind, E>>) -> (choice: SourceChoice<E>)
    ensures
        source_choice_spec(probes@, choice),
{
    let ghost original = probes@;
    let mut scanned = probes;
    let n = scanned.len();
    let mut i: usize = 0;
    while i < n && !stops_scan(&scanned[i])
        invariant
            scanned@ == original,
            n == original.len(),
            0 <= i <= n,
            passed_over(original, i as int),
        decreases n - i,
    {
        i = i + 1;
    }
    if i == n {
        return SourceChoice::NoCamera;
    }
    match scanned.remove(i) {
        Ok(kind) => {
            assert(kind == FrameSourceKind::Color);
            SourceChoice::Chosen(i)
        },
        Err(e) => {
            assert(original[i as int] == Err::<FrameSourceKind, E>(e));
            SourceChoice::Failed(e)
        },
    }
}

/// The color source to capture from, for the engine: its position among the
/// sources, the failure met while reading the kinds, or the common error
/// "No camera found" when there is no color source.
pub fn color_source_or_error(probes: Vec<Result<FrameSourceKind, CameraError>>) -> (r: Result<usize, CameraError>)
    ensures
        r matches Ok(i) ==> source_choice_spec(probes@, SourceChoice::Chosen(i)),
        r matches Err(e) ==> source_choice_spec(probes@, SourceChoice::Failed(e))
            || (source_choice_spec(probes@, SourceChoice::<CameraError>::NoCamera)
                && e is CommonError && e.msg_view() == "No camera found"@),
        source_choice_spec(probes@, SourceChoice::<CameraError>::NoCamera) ==> r is Err,
{
    match choose_color_source(probes) {
        SourceChoice::Chosen(i) => Ok(i),
        SourceChoice::Failed(e) => Err(e),
        SourceChoice::NoCamera => Err(CameraError::common("No camera found")),
    }
}

} // verus!
