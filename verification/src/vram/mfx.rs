//! Candidates of the platform media SDK gated by a loadable-runtime check.

use vstd::prelude::*;

use crate::common::{DataFormat, API};
use crate::vram::{InnerDecodeContext, InnerEncodeContext};

verus! {

/// Encode contexts this backend may support: both tracked formats over
/// the platform graphics device, and nothing when the runtime is not
/// loadable.
pub fn possible_support_encoders(driver_ok: bool) -> (r: Vec<InnerEncodeContext>)
    ensures
        !driver_ok ==> r@ == Seq::<InnerEncodeContext>::empty(),
        driver_ok ==> r@ == seq![
            InnerEncodeContext { api: API::API_DX11, format: DataFormat::H264 },
            InnerEncodeContext { api: API::API_DX11, format: DataFormat::H265 },
        ],
{
    let mut v: Vec<InnerEncodeContext> = Vec::new();
    if driver_ok {
        v.push(InnerEncodeContext { api: API::API_DX11, format: DataFormat::H264 });
        v.push(InnerEncodeContext { api: API::API_DX11, format: DataFormat::H265 });
        proof {
            assert(v@ =~= seq![
                InnerEncodeContext { api: API::API_DX11, format: DataFormat::H264 },
                InnerEncodeContext { api: API::API_DX11, format: DataFormat::H265 },
            ]);
        }
    } else {
        proof {
            assert(v@ =~= Seq::<InnerEncodeContext>::empty());
        }
    }
    v
}

/// Decode contexts this backend may support, by the same rule.
pub fn possible_support_decoders(driver_ok: bool) -> (r: Vec<InnerDecodeContext>)
    ensures
        !driver_ok ==> r@ == Seq::<InnerDecodeContext>::empty(),
        driver_ok ==> r@ == seq![
            InnerDecodeContext { api: API::API_DX11, data_format: DataFormat::H264 },
            InnerDecodeContext { api: API::API_DX11, data_format: DataFormat::H265 },
        ],
{
    let mut v: Vec<InnerDecodeContext> = Vec::new();
    if driver_ok {
        v.push(InnerDecodeContext { api: API::API_DX11, data_format: DataFormat::H264 });
        v.push(InnerDecodeContext { api: API::API_DX11, data_format: DataFormat::H265 });
        proof {
            assert(v@ =~= seq![
                InnerDecodeContext { api: API::API_DX11, data_format: DataFormat::H264 },
                InnerDecodeContext { api: API::API_DX11, data_format: DataFormat::H265 },
            ]);
        }
    } else {
        proof {
            assert(v@ =~= Seq::<InnerDecodeContext>::empty());
        }
    }
    v
}

} // verus!
