//! Shared enumerations of the codec subsystem: compressed bitstream kinds,
//! vendor drivers, native device APIs, encoder tuning knobs, and the
//! platform tag that selects per-OS candidate tables.

use vstd::prelude::*;
use vstd::string::StrSliceExecFns;

verus! {

/// Compressed bitstream kind, compared by value.
#[derive(Debug, Clone, Copy, PartialEq, Eq, Structural)]
pub enum DataFormat {
    H264,
    H265,
    VP8,
    VP9,
    AV1,
}

/// Vendor or platform implementation behind a session.
#[derive(Debug, Clone, Copy, PartialEq, Eq, Structural)]
pub enum Driver {
    NV,
    AMF,
    MFX,
    FFMPEG,
}

/// Native device/context flavor a backend binds to.
#[allow(non_camel_case_types)]
#[derive(Debug, Clone, Copy, PartialEq, Eq, Structural)]
pub enum API {
    API_DX11,
    API_OPENCL,
    API_VULKAN,
}

/// Encoder quality preset.
#[allow(non_camel_case_types)]
#[derive(Debug, Clone, Copy, PartialEq, Eq, Structural)]
pub enum Quality {
    Quality_Default,
    Quality_High,
    Quality_Medium,
    Quality_Low,
}

/// Encoder rate-control mode.
#[allow(non_camel_case_types)]
#[derive(Debug, Clone, Copy, PartialEq, Eq, Structural)]
pub enum RateControl {
    RC_DEFAULT,
    RC_CBR,
    RC_VBR,
}

/// Operating system the process runs on; selects the static per-platform
/// candidate tables during discovery.
#[derive(Debug, Clone, Copy, PartialEq, Eq, Structural)]
pub enum Os {
    Windows,
    Linux,
    MacOs,
    Other,
}

/// `needle` occurs as a contiguous subsequence of `hay`.
pub open spec fn contains_sub(hay: Seq<char>, needle: Seq<char>) -> bool {
    exists|i: int|
        0 <= i && i + needle.len() <= hay.len() && #[trigger] hay.subrange(i, i + needle.len())
            == needle
}

/// Substring search over character sequences, used by the codec-name rules
/// (`format_from_name`, probe serialization policy).
pub fn str_contains(hay: &str, needle: &str) -> (r: bool)
    ensures
        r == contains_sub(hay@, needle@),
{
    let hay_len = hay.unicode_len();
    let needle_len = needle.unicode_len();
    if needle_len > hay_len {
        assert(!contains_sub(hay@, needle@));
        return false;
    }
    if needle_len == 0 {
        assert(hay@.subrange(0, 0 + needle@.len() as int) =~= needle@);
        return true;
    }
    let mut i: usize = 0;
    while i <= hay_len - needle_len
        invariant
            needle_len == needle@.len(),
            hay_len == hay@.len(),
            1 <= needle_len <= hay_len,
            i <= hay_len - needle_len + 1,
            forall|k: int|
                0 <= k < i ==> #[trigger] hay@.subrange(k, k + needle@.len()) != needle@,
        decreases hay_len - needle_len - i + 1,
    {
        let mut j: usize = 0;
        let mut matches = true;
        while j < needle_len
            invariant
                needle_len == needle@.len(),
                hay_len == hay@.len(),
                needle_len <= hay_len,
                1 <= needle_len,
                i + needle_len <= hay_len,
                j <= needle_len,
                matches ==> forall|k: int| 0 <= k < j ==> hay@[i + k] == needle@[k],
                matches ==> j <= needle_len,
                !matches ==> hay@.subrange(i as int, i + needle@.len()) != needle@,
            decreases needle_len - j,
        {
            let hc = hay.get_char(i + j);
            let nc = needle.get_char(j);
            if hc != nc {
                assert(hay@.subrange(i as int, i + needle@.len())[j as int] != needle@[j as int]);
                matches = false;
                j = needle_len;
            } else {
                j += 1;
            }
        }
        if matches {
            assert(hay@.subrange(i as int, i + needle@.len()) =~= needle@);
            return true;
        }
        i += 1;
    }
    assert(forall|k: int|
        0 <= k && k + needle@.len() <= hay@.len() ==> #[trigger] hay@.subrange(k, k + needle@.len())
            != needle@);
    false
}

} // verus!
