//! Candidates of the GPU-vendor SDK whose driver reports per-format
//! support as a bit mask.

use vstd::prelude::*;

use crate::common::{DataFormat, API};
use crate::vram::{InnerDecodeContext, InnerEncodeContext};

verus! {

/// Bit the driver sets when it supports AVC.
pub const MASK_H264: i32 = 1;

/// Bit the driver sets when it supports HEVC.
pub const MASK_H265: i32 = 2;

/// Formats granted by a driver support mask: a negative mask means the
/// driver query itself failed.
pub open spec fn mask_formats(mask: i32) -> Seq<DataFormat> {
    (if mask & MASK_H264 != 0 {
        seq![DataFormat::H264]
    } else {
        Seq::empty()
    }) + (if mask & MASK_H265 != 0 {
        seq![DataFormat::H265]
    } else {
        Seq::empty()
    })
}

/// Encode contexts this backend may support, given the support mask its
/// driver query returned: one per granted format, over the platform
/// graphics device; a failed query grants nothing.
pub fn possible_support_encoders(mask: i32) -> (r: Vec<InnerEncodeContext>)
    ensures
        mask < 0 ==> r@ == Seq::<InnerEncodeContext>::empty(),
        mask >= 0 ==> r@ == mask_formats(mask).map_values(
            |f: DataFormat| InnerEncodeContext { api: API::API_DX11, format: f },
        ),
{
    let mut v: Vec<InnerEncodeContext> = Vec::new();
    if mask < 0 {
        proof {
            assert(v@ =~= Seq::<InnerEncodeContext>::empty());
        }
        return v;
    }
    if mask & MASK_H264 != 0 {
        v.push(InnerEncodeContext { api: API::API_DX11, format: DataFormat::H264 });
    }
    if mask & MASK_H265 != 0 {
        v.push(InnerEncodeContext { api: API::API_DX11, format: DataFormat::H265 });
    }
    proof {
        assert(v@ =~= mask_formats(mask).map_values(
            |f: DataFormat| InnerEncodeContext { api: API::API_DX11, format: f },
        ));
    }
    v
}

/// Decode contexts this backend may support, by the same driver mask rule.
pub fn possible_support_decoders(mask: i32) -> (r: Vec<InnerDecodeContext>)
    ensures
        mask < 0 ==> r@ == Seq::<InnerDecodeContext>::empty(),
        mask >= 0 ==> r@ == mask_formats(mask).map_values(
            |f: DataFormat| InnerDecodeContext { api: API::API_DX11, data_format: f },
        ),
{
    let mut v: Vec<InnerDecodeContext> = Vec::new();
    if mask < 0 {
        proof {
            assert(v@ =~= Seq::<InnerDecodeContext>::empty());
        }
        return v;
    }
    if mask & MASK_H264 != 0 {
        v.push(InnerDecodeContext { api: API::API_DX11, data_format: DataFormat::H264 });
    }
    if mask & MASK_H265 != 0 {
        v.push(InnerDecodeContext { api: API::API_DX11, data_format: DataFormat::H265 });
    }
    proof {
        assert(v@ =~= mask_formats(mask).map_values(
            |f: DataFormat| InnerDecodeContext { api: API::API_DX11, data_format: f },
        ));
    }
    v
}

} // verus!
