//! `dai::NNModelDescription`: naming a model on the Luxonis model zoo, and the
//! C mirror of it the shim takes.

use vstd::prelude::*;
use vstd::string::StringSliceAdditionalSpecFns;
use vstd::utf8::encode_utf8;

use crate::error::{cstring, nul_end, nul_free, DepthaiError, Result};
use crate::raw::dai_nn_model_description;

verus! {

/// A `dai::NNModelDescription`: which zoo model, for which platform. Only
/// `model` is required; `platform` is filled in from the device when a
/// network node builds from a camera, and must be given (`"RVC2"` / `"RVC4"`)
/// for a bare zoo download.
#[derive(Clone, Debug, Default, PartialEq, Eq)]
pub struct NNModelDescription {
    /// Zoo slug, e.g. `"luxonis/yolov6-nano:r2-coco-512x288"`.
    pub model: String,
    pub platform: Option<String>,
    pub optimization_level: Option<String>,
    pub compression_level: Option<String>,
    pub snpe_version: Option<String>,
    pub model_precision_type: Option<String>,
}

/// The UTF-8 bytes of an optional field.
pub open spec fn opt_bytes(o: Option<String>) -> Option<Seq<u8>> {
    match o {
        Some(s) => Some(encode_utf8(s@)),
        None => None,
    }
}

/// An optional field can be handed to the shim: absent, or without a NUL.
pub open spec fn opt_nul_free(o: Option<String>) -> bool {
    match o {
        Some(s) => nul_free(encode_utf8(s@)),
        None => true,
    }
}

/// The C string of an optional field, as the shim takes it (`None` = NULL).
pub open spec fn is_opt_cstring(raw: Option<Vec<u8>>, o: Option<String>) -> bool {
    match o {
        Some(s) => raw matches Some(v) && v@ == encode_utf8(s@).push(0u8),
        None => raw is None,
    }
}

/// `e` reports the first NUL of `b`.
pub open spec fn is_nul_error_of(e: DepthaiError, b: Seq<u8>) -> bool {
    e matches DepthaiError::Nul { position, bytes } && bytes@ == b && position == nul_end(b)
}

/// The C string of an optional field, or the NUL it holds.
fn opt_cstring(o: &Option<String>) -> (r: Result<Option<Vec<u8>>>)
    ensures
        r is Ok <==> opt_nul_free(*o),
        r matches Ok(raw) ==> is_opt_cstring(raw, *o),
        r matches Err(e) ==> o matches Some(s) && is_nul_error_of(e, encode_utf8(s@)),
{
    match o {
        Some(s) => Ok(Some(cstring(s.as_str())?)),
        None => Ok(None),
    }
}

impl NNModelDescription {
    /// The bytes of the first field, in declaration order, that holds a NUL.
    pub open spec fn first_nul_field(&self) -> Option<Seq<u8>> {
        if !nul_free(encode_utf8(self.model@)) {
            Some(encode_utf8(self.model@))
        } else if !opt_nul_free(self.platform) {
            opt_bytes(self.platform)
        } else if !opt_nul_free(self.optimization_level) {
            opt_bytes(self.optimization_level)
        } else if !opt_nul_free(self.compression_level) {
            opt_bytes(self.compression_level)
        } else if !opt_nul_free(self.snpe_version) {
            opt_bytes(self.snpe_version)
        } else if !opt_nul_free(self.model_precision_type) {
            opt_bytes(self.model_precision_type)
        } else {
            None
        }
    }

    /// A description of `model` with every other field left to depthai.
    pub fn new(model: &str) -> (d: Self)
        ensures
            d.model@ == model@,
            d.platform is None,
            d.optimization_level is None,
            d.compression_level is None,
            d.snpe_version is None,
            d.model_precision_type is None,
    {
        NNModelDescription {
            model: model.to_owned(),
            platform: None,
            optimization_level: None,
            compression_level: None,
            snpe_version: None,
            model_precision_type: None,
        }
    }

    /// The same description for `platform`.
    pub fn with_platform(self, platform: &str) -> (d: Self)
        ensures
            d.platform matches Some(p) && p@ == platform@,
            d.model == self.model,
            d.optimization_level == self.optimization_level,
            d.compression_level == self.compression_level,
            d.snpe_version == self.snpe_version,
            d.model_precision_type == self.model_precision_type,
    {
        NNModelDescription { platform: Some(platform.to_owned()), ..self }
    }

    /// The C mirror the shim takes: every field as a NUL-terminated C string,
    /// absent ones as NULL. Fails with [`DepthaiError::Nul`] for the first
    /// field, in declaration order, that holds a NUL.
    pub fn to_raw(&self) -> (r: Result<dai_nn_model_description>)
        ensures
            r is Ok <==> self.first_nul_field() is None,
            r matches Ok(raw) ==> {
                &&& raw.model@ == encode_utf8(self.model@).push(0u8)
                &&& is_opt_cstring(raw.platform, self.platform)
                &&& is_opt_cstring(raw.optimization_level, self.optimization_level)
                &&& is_opt_cstring(raw.compression_level, self.compression_level)
                &&& is_opt_cstring(raw.snpe_version, self.snpe_version)
                &&& is_opt_cstring(raw.model_precision_type, self.model_precision_type)
            },
            r matches Err(e) ==> self.first_nul_field() matches Some(b) && is_nul_error_of(e, b),
    {
        let model = cstring(self.model.as_str())?;
        let platform = opt_cstring(&self.platform)?;
        let optimization_level = opt_cstring(&self.optimization_level)?;
        let compression_level = opt_cstring(&self.compression_level)?;
        let snpe_version = opt_cstring(&self.snpe_version)?;
        let model_precision_type = opt_cstring(&self.model_precision_type)?;
        Ok(
            dai_nn_model_description {
                model,
                platform,
                optimization_level,
                compression_level,
                snpe_version,
                model_precision_type,
            },
        )
    }
}

} // verus!
