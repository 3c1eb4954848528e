//! Candidates of the media-library texture decode backend.

use vstd::prelude::*;

use crate::common::{DataFormat, API};
use crate::vram::InnerDecodeContext;

verus! {

/// Decode contexts this backend may support: on Windows, both tracked
/// bitstream formats over the platform graphics device; nothing elsewhere.
pub fn possible_support_decoders(windows: bool) -> (r: Vec<InnerDecodeContext>)
    ensures
        windows ==> r@ == seq![
            InnerDecodeContext { api: API::API_DX11, data_format: DataFormat::H264 },
            InnerDecodeContext { api: API::API_DX11, data_format: DataFormat::H265 },
        ],
        !windows ==> r@ == Seq::<InnerDecodeContext>::empty(),
{
    let mut v: Vec<InnerDecodeContext> = Vec::new();
    if windows {
        v.push(InnerDecodeContext { api: API::API_DX11, data_format: DataFormat::H264 });
        v.push(InnerDecodeContext { api: API::API_DX11, data_format: DataFormat::H265 });
        proof {
            assert(v@ =~= seq![
                InnerDecodeContext { api: API::API_DX11, data_format: DataFormat::H264 },
                InnerDecodeContext { api: API::API_DX11, data_format: DataFormat::H265 },
            ]);
        }
    } else {
        proof {
            assert(v@ =~= Seq::<InnerDecodeContext>::empty());
        }
    }
    v
}

} // verus!
