//! Texture-resident decode path: candidate contexts per vendor driver, the
//! capability manifest exchanged between processes, and the expansion of a
//! probed candidate over the adapters its trial run reported.

use vstd::prelude::*;

use crate::common::{DataFormat, Driver, API};

pub mod amf;
pub mod ffmpeg;
pub mod mfx;
pub mod nv;

verus! {

/// Most adapters one vendor is asked to report during a probe.
pub const MAX_ADAPTERS: usize = 4;

/// An encode candidate a vendor driver may support: device flavor and
/// bitstream format.
#[derive(Debug, Clone, Copy, PartialEq, Eq, Structural)]
pub struct InnerEncodeContext {
    pub api: API,
    pub format: DataFormat,
}

/// A decode candidate a vendor driver may support.
#[derive(Debug, Clone, Copy, PartialEq, Eq, Structural)]
pub struct InnerDecodeContext {
    pub api: API,
    pub data_format: DataFormat,
}

/// Parameters a texture decode session is created from; `luid` picks the
/// adapter. The native device handle itself stays outside this crate.
#[derive(Debug, Clone, Copy, PartialEq, Eq, Structural)]
pub struct DecodeContext {
    pub driver: Driver,
    pub luid: i64,
    pub api: API,
    pub data_format: DataFormat,
    pub output_shared_handle: bool,
}

/// A `(driver, format)` pair occurs in the list.
pub open spec fn pair_listed(s: Seq<(Driver, DataFormat)>, driver: Driver, format: DataFormat) -> bool {
    exists|i: int| 0 <= i < s.len() && s[i] == (driver, format)
}

/// The capability manifest one process shares with another instead of
/// re-probing: the `(backend, format)` pairs confirmed available, per
/// direction (`e` encode, `d` decode).
#[derive(Debug, Clone)]
pub struct Available {
    pub e: Vec<(Driver, DataFormat)>,
    pub d: Vec<(Driver, DataFormat)>,
}

/// Linear search for a `(driver, format)` pair.
fn list_contains(list: &Vec<(Driver, DataFormat)>, driver: Driver, format: DataFormat) -> (r:
    bool)
    ensures
        r == pair_listed(list@, driver, format),
{
    let mut i: usize = 0;
    while i < list.len()
        invariant
            i <= list@.len(),
            forall|k: int| 0 <= k < i ==> list@[k] != (driver, format),
        decreases list@.len() - i,
    {
        let entry = &list[i];
        if entry.0 == driver && entry.1 == format {
            assert(list@[i as int] == (driver, format));
            assert(pair_listed(list@, driver, format));
            return true;
        }
        i += 1;
    }
    assert(!pair_listed(list@, driver, format));
    false
}

impl Available {
    /// Whether the manifest confirms the combination for the given
    /// direction.
    pub fn contains(&self, encode: bool, driver: Driver, format: DataFormat) -> (r: bool)
        ensures
            encode ==> r == pair_listed(self.e@, driver, format),
            !encode ==> r == pair_listed(self.d@, driver, format),
    {
        if encode {
            list_contains(&self.e, driver, format)
        } else {
            list_contains(&self.d, driver, format)
        }
    }
}

/// Whether an optional manifest lets a combination through: an absent (or
/// unparseable, hence absent here) manifest filters nothing.
pub fn manifest_allows(
    manifest: Option<&Available>,
    encode: bool,
    driver: Driver,
    format: DataFormat,
) -> (r: bool)
    ensures
        manifest is None ==> r,
        manifest matches Some(a) ==> (encode ==> r == pair_listed(a.e@, driver, format)) && (
        !encode ==> r == pair_listed(a.d@, driver, format)),
{
    match manifest {
        None => true,
        Some(a) => a.contains(encode, driver, format),
    }
}

/// Contexts a probed candidate yields, one per adapter its trial run
/// reported: the candidate with each reported adapter's `luid`, or none
/// at all when the trial failed.
pub open spec fn adapters_spec(input: DecodeContext, ret: int, luids: Seq<i64>) -> Seq<
    DecodeContext,
> {
    if ret == 0 {
        Seq::new(luids.len(), |i: int| (DecodeContext { luid: luids[i], ..input }))
    } else {
        Seq::empty()
    }
}

/// Expand one probed candidate over the adapters its trial `test` call
/// reported: status zero yields one context per adapter `luid`, any other
/// status drops the candidate.
pub fn adapters_for_candidate(input: &DecodeContext, ret: i32, luids: &Vec<i64>) -> (r: Vec<
    DecodeContext,
>)
    ensures
        r@ == adapters_spec(*input, ret as int, luids@),
{
    let mut r: Vec<DecodeContext> = Vec::new();
    if ret != 0 {
        proof {
            assert(r@ =~= adapters_spec(*input, ret as int, luids@));
        }
        return r;
    }
    let mut i: usize = 0;
    while i < luids.len()
        invariant
            i <= luids@.len(),
            r@.len() == i,
            forall|k: int| 0 <= k < i ==> r@[k] == (DecodeContext { luid: luids@[k], ..*input }),
        decreases luids@.len() - i,
    {
        let mut c = *input;
        c.luid = luids[i];
        r.push(c);
        i += 1;
    }
    proof {
        assert(r@ =~= adapters_spec(*input, ret as int, luids@));
    }
    r
}

/// During probing, drivers sharing a non-reentrant native context are
/// serialized; the others run fully in parallel.
pub fn probe_needs_serialization(driver: Driver) -> (r: bool)
    ensures
        r == (driver == Driver::NV || driver == Driver::FFMPEG),
{
    driver == Driver::NV || driver == Driver::FFMPEG
}

/// The flat candidate list a texture decode discovery pass probes: every
/// driver's possible decode contexts tagged with its driver, in a fixed
/// driver order, each with adapter zero until a probe reports adapters.
pub open spec fn decode_candidates_spec(
    ffmpeg_list: Seq<InnerDecodeContext>,
    amf_list: Seq<InnerDecodeContext>,
    mfx_list: Seq<InnerDecodeContext>,
    output_shared_handle: bool,
) -> Seq<DecodeContext> {
    tag_candidates(ffmpeg_list, Driver::FFMPEG, output_shared_handle) + tag_candidates(
        amf_list,
        Driver::AMF,
        output_shared_handle,
    ) + tag_candidates(mfx_list, Driver::MFX, output_shared_handle)
}

/// One driver's possible contexts, tagged for probing.
pub open spec fn tag_candidates(
    list: Seq<InnerDecodeContext>,
    driver: Driver,
    output_shared_handle: bool,
) -> Seq<DecodeContext> {
    Seq::new(
        list.len(),
        |i: int|
            (DecodeContext {
                driver,
                luid: 0,
                api: list[i].api,
                data_format: list[i].data_format,
                output_shared_handle,
            }),
    )
}

/// Build the candidate list of one texture decode discovery pass from the
/// per-driver possible-support lists.
pub fn decode_candidates(
    ffmpeg_list: &Vec<InnerDecodeContext>,
    amf_list: &Vec<InnerDecodeContext>,
    mfx_list: &Vec<InnerDecodeContext>,
    output_shared_handle: bool,
) -> (r: Vec<DecodeContext>)
    ensures
        r@ == decode_candidates_spec(ffmpeg_list@, amf_list@, mfx_list@, output_shared_handle),
{
    let mut r: Vec<DecodeContext> = Vec::new();
    tag_into(&mut r, ffmpeg_list, Driver::FFMPEG, output_shared_handle);
    tag_into(&mut r, amf_list, Driver::AMF, output_shared_handle);
    tag_into(&mut r, mfx_list, Driver::MFX, output_shared_handle);
    proof {
        assert(r@ =~= decode_candidates_spec(
            ffmpeg_list@,
            amf_list@,
            mfx_list@,
            output_shared_handle,
        ));
    }
    r
}

/// Append one driver's tagged candidates.
fn tag_into(
    r: &mut Vec<DecodeContext>,
    list: &Vec<InnerDecodeContext>,
    driver: Driver,
    output_shared_handle: bool,
)
    ensures
        final(r)@ == old(r)@ + tag_candidates(list@, driver, output_shared_handle),
{
    let mut i: usize = 0;
    while i < list.len()
        invariant
            i <= list@.len(),
            r@.len() == old(r)@.len() + i,
            r@ =~= old(r)@ + tag_candidates(list@, driver, output_shared_handle).take(i as int),
        decreases list@.len() - i,
    {
        let entry = &list[i];
        r.push(
            DecodeContext {
                driver,
                luid: 0,
                api: entry.api,
                data_format: entry.data_format,
                output_shared_handle,
            },
        );
        proof {
            assert(r@ =~= old(r)@ + tag_candidates(list@, driver, output_shared_handle).take(
                i + 1,
            ));
        }
        i += 1;
    }
    proof {
        assert(tag_candidates(list@, driver, output_shared_handle).take(list@.len() as int)
            =~= tag_candidates(list@, driver, output_shared_handle));
    }
}

} // verus!
