//! The layout detector's decision half.
//!
//! The operating system is queried fresh for every qualifying event and
//! answers with a layout identifier, or fails to.  The query itself is
//! outside work; what stands here is its outcome as a plain value and
//! the comparison against the direction's required source layout.  Any
//! failure to obtain or decode an identifier conservatively means "do
//! not remap" and must never abort the process.

use vstd::prelude::*;
use vstd::string::StringSliceAdditionalSpecFns;

use crate::errors::RemapError;
use crate::remap::RemapDirection;

verus! {

/// The size of the buffer that the slow extraction path copies the
/// identifier into.  An identifier that does not fit is treated as a
/// detection failure, never as a crash.
pub const LAYOUT_ID_BUFFER_BYTES: usize = 256;

/// What querying the operating system for the active keyboard layout
/// yielded, reduced to a plain value.
#[derive(Clone, Debug)]
pub enum LayoutReading {
    /// The system handed back no current input source.
    NullSource,
    /// An input source existed but its identifier could not be decoded
    /// (or did not fit the copy buffer).
    Undecodable,
    /// The identifier's bytes.
    Identifier(Vec<u8>),
}

/// The identifier of the Dvorak layout that the Dvorak-to-QWERTY
/// direction requires to be active.
pub open spec fn spec_dvorak_layout_bytes() -> Seq<u8> {
    "com.apple.keylayout.DVORAK-QWERTYCMD".spec_bytes()
}

/// The identifier of the US QWERTY layout that the QWERTY-to-Dvorak
/// direction requires to be active.
pub open spec fn spec_us_layout_bytes() -> Seq<u8> {
    "com.apple.keylayout.US".spec_bytes()
}

/// The source-layout identifier each direction requires.
pub open spec fn spec_required_layout_bytes(direction: RemapDirection) -> Seq<u8> {
    match direction {
        RemapDirection::DvorakToQwerty => spec_dvorak_layout_bytes(),
        RemapDirection::QwertyToDvorak => spec_us_layout_bytes(),
    }
}

/// Returns the identifier string of the direction's required source
/// layout.
pub fn required_layout_id(direction: RemapDirection) -> (r: &'static str)
    ensures
        r.spec_bytes() == spec_required_layout_bytes(direction),
{
    match direction {
        RemapDirection::DvorakToQwerty => "com.apple.keylayout.DVORAK-QWERTYCMD",
        RemapDirection::QwertyToDvorak => "com.apple.keylayout.US",
    }
}

/// Compares two byte strings.
fn bytes_equal(a: &[u8], b: &[u8]) -> (r: bool)
    ensures
        r == (a@ == b@),
{
    if a.len() != b.len() {
        return false;
    }
    let n: usize = a.len();
    let mut i: usize = 0;
    while i < n
        invariant
            n == a@.len(),
            a@.len() == b@.len(),
            i <= n,
            forall|j: int| 0 <= j < i ==> a@[j] == b@[j],
        decreases n - i,
    {
        if a[i] != b[i] {
            return false;
        }
        i = i + 1;
    }
    proof {
        assert(a@ =~= b@);
    }
    true
}

/// Whether the given bytes name the Dvorak layout the remapper waits
/// for.
pub fn is_dvorak_name(s: &[u8]) -> (r: bool)
    ensures
        r == (s@ == spec_dvorak_layout_bytes()),
{
    bytes_equal(s, "com.apple.keylayout.DVORAK-QWERTYCMD".as_bytes())
}

/// A reading matches a direction when it decoded to exactly the
/// direction's required source-layout identifier.  A failed reading
/// matches nothing.
pub open spec fn spec_layout_matches(direction: RemapDirection, reading: LayoutReading) -> bool {
    match reading {
        LayoutReading::Identifier(bytes) => bytes@ == spec_required_layout_bytes(direction),
        _ => false,
    }
}

/// Decides whether the layout reading proves the direction's source
/// layout active.  Conservative: on a null or undecodable reading it
/// answers false, so nothing is remapped.
pub fn layout_matches(direction: RemapDirection, reading: &LayoutReading) -> (r: bool)
    ensures
        r == spec_layout_matches(direction, *reading),
{
    match reading {
        LayoutReading::Identifier(bytes) => {
            bytes_equal(bytes.as_slice(), required_layout_id(direction).as_bytes())
        },
        _ => false,
    }
}

/// The error a failed reading stands for: `None` when an identifier was
/// obtained.
pub open spec fn spec_detection_error(reading: LayoutReading) -> Option<RemapError> {
    match reading {
        LayoutReading::NullSource => Some(RemapError::LayoutDetectionFailure),
        LayoutReading::Undecodable => Some(RemapError::MalformedLayoutIdentifier),
        LayoutReading::Identifier(_) => None,
    }
}

/// Classifies a failed reading; both failure kinds degrade identically.
pub fn detection_error(reading: &LayoutReading) -> (r: Option<RemapError>)
    ensures
        r == spec_detection_error(*reading),
{
    match reading {
        LayoutReading::NullSource => Some(RemapError::LayoutDetectionFailure),
        LayoutReading::Undecodable => Some(RemapError::MalformedLayoutIdentifier),
        LayoutReading::Identifier(_) => None,
    }
}

/// A reading that stands for a detection error never matches any
/// direction, so a failed or undecodable query always degrades to
/// passing the event through.
pub proof fn lemma_detection_failure_never_matches(
    direction: RemapDirection,
    reading: LayoutReading,
)
    requires
        spec_detection_error(reading) is Some,
    ensures
        !spec_layout_matches(direction, reading),
{
}

} // verus!
