//! Candidates of the GPU-vendor SDK gated by a loadable-runtime check.

use vstd::prelude::*;

use crate::common::{DataFormat, Os, API};
use crate::vram::{InnerDecodeContext, InnerEncodeContext};

verus! {

/// Encode contexts this backend may support: both tracked formats over
/// each platform device flavor, and nothing when the runtime is not
/// loadable (`driver_ok` is the runtime presence query's verdict).
pub fn possible_support_encoders(driver_ok: bool, os: Os) -> (r: Vec<InnerEncodeContext>)
    ensures
        !driver_ok ==> r@ == Seq::<InnerEncodeContext>::empty(),
        driver_ok && os == Os::Windows ==> r@ == seq![
            InnerEncodeContext { api: API::API_DX11, format: DataFormat::H264 },
            InnerEncodeContext { api: API::API_DX11, format: DataFormat::H265 },
        ],
        driver_ok && os == Os::Linux ==> r@ == seq![
            InnerEncodeContext { api: API::API_OPENCL, format: DataFormat::H264 },
            InnerEncodeContext { api: API::API_OPENCL, format: DataFormat::H265 },
            InnerEncodeContext { api: API::API_VULKAN, format: DataFormat::H264 },
            InnerEncodeContext { api: API::API_VULKAN, format: DataFormat::H265 },
        ],
        driver_ok && os != Os::Windows && os != Os::Linux ==> r@ == Seq::<
            InnerEncodeContext,
        >::empty(),
{
    let mut v: Vec<InnerEncodeContext> = Vec::new();
    if !driver_ok {
        proof {
            assert(v@ =~= Seq::<InnerEncodeContext>::empty());
        }
        return v;
    }
    if os == Os::Windows {
        v.push(InnerEncodeContext { api: API::API_DX11, format: DataFormat::H264 });
        v.push(InnerEncodeContext { api: API::API_DX11, format: DataFormat::H265 });
        proof {
            assert(v@ =~= seq![
                InnerEncodeContext { api: API::API_DX11, format: DataFormat::H264 },
                InnerEncodeContext { api: API::API_DX11, format: DataFormat::H265 },
            ]);
        }
    } else if os == Os::Linux {
        v.push(InnerEncodeContext { api: API::API_OPENCL, format: DataFormat::H264 });
        v.push(InnerEncodeContext { api: API::API_OPENCL, format: DataFormat::H265 });
        v.push(InnerEncodeContext { api: API::API_VULKAN, format: DataFormat::H264 });
        v.push(InnerEncodeContext { api: API::API_VULKAN, format: DataFormat::H265 });
        proof {
            assert(v@ =~= seq![
                InnerEncodeContext { api: API::API_OPENCL, format: DataFormat::H264 },
                InnerEncodeContext { api: API::API_OPENCL, format: DataFormat::H265 },
                InnerEncodeContext { api: API::API_VULKAN, format: DataFormat::H264 },
                InnerEncodeContext { api: API::API_VULKAN, format: DataFormat::H265 },
            ]);
        }
    } else {
        proof {
            assert(v@ =~= Seq::<InnerEncodeContext>::empty());
        }
    }
    v
}

/// Decode contexts this backend may support: AVC only — its HEVC decode
/// path is known broken — over each platform device flavor, gated by the
/// same runtime presence query.
pub fn possible_support_decoders(driver_ok: bool, os: Os) -> (r: Vec<InnerDecodeContext>)
    ensures
        !driver_ok ==> r@ == Seq::<InnerDecodeContext>::empty(),
        driver_ok && os == Os::Windows ==> r@ == seq![
            InnerDecodeContext { api: API::API_DX11, data_format: DataFormat::H264 },
        ],
        driver_ok && os == Os::Linux ==> r@ == seq![
            InnerDecodeContext { api: API::API_OPENCL, data_format: DataFormat::H264 },
            InnerDecodeContext { api: API::API_VULKAN, data_format: DataFormat::H264 },
        ],
        driver_ok && os != Os::Windows && os != Os::Linux ==> r@ == Seq::<
            InnerDecodeContext,
        >::empty(),
{
    let mut v: Vec<InnerDecodeContext> = Vec::new();
    if !driver_ok {
        proof {
            assert(v@ =~= Seq::<InnerDecodeContext>::empty());
        }
        return v;
    }
    if os == Os::Windows {
        v.push(InnerDecodeContext { api: API::API_DX11, data_format: DataFormat::H264 });
        proof {
            assert(v@ =~= seq![
                InnerDecodeContext { api: API::API_DX11, data_format: DataFormat::H264 },
            ]);
        }
    } else if os == Os::Linux {
        v.push(InnerDecodeContext { api: API::API_OPENCL, data_format: DataFormat::H264 });
        v.push(InnerDecodeContext { api: API::API_VULKAN, data_format: DataFormat::H264 });
        proof {
            assert(v@ =~= seq![
                InnerDecodeContext { api: API::API_OPENCL, data_format: DataFormat::H264 },
                InnerDecodeContext { api: API::API_VULKAN, data_format: DataFormat::H264 },
            ]);
        }
    } else {
        proof {
            assert(v@ =~= Seq::<InnerDecodeContext>::empty());
        }
    }
    v
}

} // verus!
