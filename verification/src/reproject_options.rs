//! Settings of a reprojection and their compilation into a warp
//! configuration.

use vstd::prelude::*;
use crate::errors::GdalError;
use crate::spatial_ref::{SpatialRef, SrsView};
use crate::warp_options::{GdalWarpOptions, WarpOptionsView, WorkingDataType};

verus! {

/// What a settings value holds, as plain mathematical values. A kind of
/// settings that lacks a field shows it as `None`.
pub struct OptionsView {
    pub warp_options: WarpOptionsView,
    pub max_error: Option<u64>,
    pub src_srs: Option<SrsView>,
    pub dst_srs: Option<SrsView>,
    pub src_nodata: Option<u64>,
    pub dst_nodata: Option<u64>,
    pub output_format: Option<Seq<char>>,
}

/// The definition of an optional spatial reference system.
pub open spec fn srs_view(srs: Option<SpatialRef>) -> Option<SrsView> {
    match srs {
        Some(s) => Some(s@),
        None => None,
    }
}

/// The definition of an optional, borrowed spatial reference system.
pub open spec fn srs_view_ref(srs: Option<&SpatialRef>) -> Option<SrsView> {
    match srs {
        Some(s) => Some(s@),
        None => None,
    }
}

/// The characters of an optional string.
pub open spec fn text_view(text: Option<String>) -> Option<Seq<char>> {
    match text {
        Some(s) => Some(s@),
        None => None,
    }
}

/// The warp configuration of one run: `draft` sized for `band_count` bands
/// if a no-data override is present, each override on every band, and the
/// working pixel type left to the engine unless the draft settles it.
/// Without an override the draft's band count and per-band values stay.
pub open spec fn compiled_warp_options(
    draft: WarpOptionsView,
    src_nodata: Option<u64>,
    dst_nodata: Option<u64>,
    band_count: usize,
) -> WarpOptionsView {
    let sized = if src_nodata is Some || dst_nodata is Some {
        draft.with_band_count(band_count)
    } else {
        draft
    };
    WarpOptionsView {
        src_nodata: match src_nodata {
            Some(v) => sized.broadcast(v),
            None => sized.src_nodata,
        },
        dst_nodata: match dst_nodata {
            Some(v) => sized.broadcast(v),
            None => sized.dst_nodata,
        },
        working_datatype: match draft.working_datatype {
            WorkingDataType::Unspecified => WorkingDataType::Auto,
            chosen => chosen,
        },
        ..sized
    }
}

impl OptionsView {
    /// Settings with nothing chosen.
    pub open spec fn empty() -> OptionsView {
        OptionsView {
            warp_options: WarpOptionsView::empty(),
            max_error: None,
            src_srs: None,
            dst_srs: None,
            src_nodata: None,
            dst_nodata: None,
            output_format: None,
        }
    }

    /// The warp configuration these settings compile to for `band_count`
    /// bands.
    pub open spec fn compiled(self, band_count: usize) -> WarpOptionsView {
        compiled_warp_options(self.warp_options, self.src_nodata, self.dst_nodata, band_count)
    }

    /// The error tolerance handed to the engine: the one that was set, else
    /// the bit pattern of `0.0`, which asks for exact calculation.
    pub open spec fn effective_max_error(self) -> u64 {
        match self.max_error {
            Some(e) => e,
            None => 0,
        }
    }
}

/// Compile `draft` for one run. The draft is copied, never changed. The
/// copy is sized before any no-data value is written to it: first the band
/// count, then the source value, then the destination value, last the
/// working pixel type.
pub fn init_warp_options(
    draft: &GdalWarpOptions,
    src_nodata: Option<u64>,
    dst_nodata: Option<u64>,
    band_count: usize,
) -> (r: Result<GdalWarpOptions, GdalError>)
    ensures
        r is Ok,
        r.unwrap()@ == compiled_warp_options(draft@, src_nodata, dst_nodata, band_count),
        r.unwrap()@.wf(),
{
    let mut warp_options = draft.clone();
    if src_nodata.is_some() || dst_nodata.is_some() {
        warp_options.with_band_count(band_count);
    }
    if let Some(value) = src_nodata {
        match warp_options.apply_src_nodata(value) {
            Ok(()) => {},
            Err(e) => {
                return Err(e);
            },
        }
    }
    if let Some(value) = dst_nodata {
        match warp_options.apply_dst_nodata(value) {
            Ok(()) => {},
            Err(e) => {
                return Err(e);
            },
        }
    }
    if warp_options.working_datatype_choice() == WorkingDataType::Unspecified {
        warp_options.with_auto_working_datatype();
    }
    Ok(warp_options)
}

/// A copy of an optional spatial reference system.
pub(crate) fn clone_srs(srs: &Option<SpatialRef>) -> (r: Option<SpatialRef>)
    ensures
        r == *srs,
{
    match srs {
        Some(s) => Some(s.clone()),
        None => None,
    }
}

/// A copy of an optional string.
pub(crate) fn clone_text(text: &Option<String>) -> (r: Option<String>)
    ensures
        r == *text,
{
    match text {
        Some(s) => Some(s.clone()),
        None => None,
    }
}

/// Settings of a reprojection that writes a new file.
#[derive(Debug, PartialEq, Eq)]
pub struct ReprojectOptions {
    warp_options: GdalWarpOptions,
    max_error: Option<u64>,
    src_srs: Option<SpatialRef>,
    src_nodata: Option<u64>,
    dst_nodata: Option<u64>,
    output_format: Option<String>,
}

impl View for ReprojectOptions {
    type V = OptionsView;

    closed spec fn view(&self) -> OptionsView {
        OptionsView {
            warp_options: self.warp_options@,
            max_error: self.max_error,
            src_srs: srs_view(self.src_srs),
            dst_srs: None,
            src_nodata: self.src_nodata,
            dst_nodata: self.dst_nodata,
            output_format: text_view(self.output_format),
        }
    }
}

impl ReprojectOptions {
    /// Settings with nothing chosen.
    pub fn new() -> (r: Self)
        ensures
            r@ == OptionsView::empty(),
    {
        ReprojectOptions {
            warp_options: GdalWarpOptions::new(),
            max_error: None,
            src_srs: None,
            src_nodata: None,
            dst_nodata: None,
            output_format: None,
        }
    }

    /// Set the maximum error, in source pixels, allowed when the transform
    /// is approximated. The bit pattern of `0.0` asks for exact calculation.
    pub fn with_max_error(&mut self, max_error: u64) -> (r: &mut Self)
        ensures
            (*r)@ == (OptionsView { max_error: Some(max_error), ..old(self)@ }),
            *final(self) == *final(r),
    {
        self.max_error = Some(max_error);
        self
    }

    /// The maximum error, if one was set.
    pub fn max_error(&self) -> (r: Option<u64>)
        ensures
            r == self@.max_error,
    {
        self.max_error
    }

    /// Override the source projection. While none is set, the engine reads
    /// it from the source dataset.
    pub fn with_src_projection(&mut self, srs: &SpatialRef) -> (r: &mut Self)
        ensures
            (*r)@ == (OptionsView { src_srs: Some(srs@), ..old(self)@ }),
            *final(self) == *final(r),
    {
        self.src_srs = Some(srs.clone());
        self
    }

    /// The source projection override, if any.
    pub fn src_projection(&self) -> (r: Option<&SpatialRef>)
        ensures
            srs_view_ref(r) == self@.src_srs,
    {
        self.src_srs.as_ref()
    }

    /// Override the source no-data value of every band.
    pub fn with_src_nodata(&mut self, nodata_value: u64) -> (r: &mut Self)
        ensures
            (*r)@ == (OptionsView { src_nodata: Some(nodata_value), ..old(self)@ }),
            *final(self) == *final(r),
    {
        self.src_nodata = Some(nodata_value);
        self
    }

    /// The source no-data override, if any.
    pub fn src_nodata(&self) -> (r: Option<u64>)
        ensures
            r == self@.src_nodata,
    {
        self.src_nodata
    }

    /// Set the no-data value written to every band of the destination.
    pub fn with_dst_nodata(&mut self, nodata_value: u64) -> (r: &mut Self)
        ensures
            (*r)@ == (OptionsView { dst_nodata: Some(nodata_value), ..old(self)@ }),
            *final(self) == *final(r),
    {
        self.dst_nodata = Some(nodata_value);
        self
    }

    /// The destination no-data value, if any.
    pub fn dst_nodata(&self) -> (r: Option<u64>)
        ensures
            r == self@.dst_nodata,
    {
        self.dst_nodata
    }

    /// Name the output raster format by its driver identifier (`GTiff`,
    /// `COG`, `VRT`, ...). While none is set, the source dataset's driver
    /// is used.
    pub fn with_output_format(&mut self, format: &str) -> (r: &mut Self)
        ensures
            (*r)@ == (OptionsView { output_format: Some(format@), ..old(self)@ }),
            *final(self) == *final(r),
    {
        self.output_format = Some(format.to_owned());
        self
    }

    /// The driver identifier of the output format, if one was named.
    pub fn output_format(&self) -> (r: Option<String>)
        ensures
            text_view(r) == self@.output_format,
    {
        clone_text(&self.output_format)
    }

    /// The general warp configuration under construction.
    pub fn warp_options(&self) -> (r: &GdalWarpOptions)
        ensures
            r@ == self@.warp_options,
    {
        &self.warp_options
    }

    /// The general warp configuration, for changing it in place.
    pub fn warp_options_mut(&mut self) -> (r: &mut GdalWarpOptions)
        ensures
            (*r)@ == old(self)@.warp_options,
            final(self)@ == (OptionsView { warp_options: (*final(r))@, ..old(self)@ }),
    {
        &mut self.warp_options
    }

    /// A fresh warp configuration for one run over `band_count` bands: a
    /// copy of the configuration held here, sized and filled with the
    /// no-data overrides, its working pixel type settled. These settings
    /// stay as they are and can be used for any number of runs.
    pub fn clone_and_init_warp_options(
        &self,
        band_count: usize,
    ) -> (r: Result<GdalWarpOptions, GdalError>)
        ensures
            r is Ok,
            r.unwrap()@ == self@.compiled(band_count),
            r.unwrap()@.wf(),
    {
        init_warp_options(&self.warp_options, self.src_nodata, self.dst_nodata, band_count)
    }
}

impl Clone for ReprojectOptions {
    fn clone(&self) -> (r: Self)
        ensures
            r@ == self@,
    {
        ReprojectOptions {
            warp_options: self.warp_options.clone(),
            max_error: self.max_error,
            src_srs: clone_srs(&self.src_srs),
            src_nodata: self.src_nodata,
            dst_nodata: self.dst_nodata,
            output_format: clone_text(&self.output_format),
        }
    }
}

impl Default for ReprojectOptions {
    fn default() -> (r: Self)
        ensures
            r@ == OptionsView::empty(),
    {
        ReprojectOptions::new()
    }
}

/// Settings of a reprojection into a dataset that already exists.
#[derive(Debug, PartialEq, Eq)]
pub struct ReprojectIntoOptions {
    warp_options: GdalWarpOptions,
    max_error: Option<u64>,
    src_srs: Option<SpatialRef>,
    dst_srs: Option<SpatialRef>,
    src_nodata: Option<u64>,
    dst_nodata: Option<u64>,
}

impl View for ReprojectIntoOptions {
    type V = OptionsView;

    closed spec fn view(&self) -> OptionsView {
        OptionsView {
            warp_options: self.warp_options@,
            max_error: self.max_error,
            src_srs: srs_view(self.src_srs),
            dst_srs: srs_view(self.dst_srs),
            src_nodata: self.src_nodata,
            dst_nodata: self.dst_nodata,
            output_format: None,
        }
    }
}

impl ReprojectIntoOptions {
    /// Settings with nothing chosen.
    pub fn new() -> (r: Self)
        ensures
            r@ == OptionsView::empty(),
    {
        ReprojectIntoOptions {
            warp_options: GdalWarpOptions::new(),
            max_error: None,
            src_srs: None,
            dst_srs: None,
            src_nodata: None,
            dst_nodata: None,
        }
    }

    /// Set the maximum error, in source pixels, allowed when the transform
    /// is approximated. The bit pattern of `0.0` asks for exact calculation.
    pub fn with_max_error(&mut self, max_error: u64) -> (r: &mut Self)
        ensures
            (*r)@ == (OptionsView { max_error: Some(max_error), ..old(self)@ }),
            *final(self) == *final(r),
    {
        self.max_error = Some(max_error);
        self
    }

    /// The maximum error, if one was set.
    pub fn max_error(&self) -> (r: Option<u64>)
        ensures
            r == self@.max_error,
    {
        self.max_error
    }

    /// Override the source projection. While none is set, the engine reads
    /// it from the source dataset.
    pub fn with_src_projection(&mut self, srs: &SpatialRef) -> (r: &mut Self)
        ensures
            (*r)@ == (OptionsView { src_srs: Some(srs@), ..old(self)@ }),
            *final(self) == *final(r),
    {
        self.src_srs = Some(srs.clone());
        self
    }

    /// The source projection override, if any.
    pub fn src_projection(&self) -> (r: Option<&SpatialRef>)
        ensures
            srs_view_ref(r) == self@.src_srs,
    {
        self.src_srs.as_ref()
    }

    /// Override the destination projection. While none is set, the engine
    /// reads it from the destination dataset.
    pub fn with_dst_projection(&mut self, srs: &SpatialRef) -> (r: &mut Self)
        ensures
            (*r)@ == (OptionsView { dst_srs: Some(srs@), ..old(self)@ }),
            *final(self) == *final(r),
    {
        self.dst_srs = Some(srs.clone());
        self
    }

    /// The destination projection override, if any.
    pub fn dst_projection(&self) -> (r: Option<&SpatialRef>)
        ensures
            srs_view_ref(r) == self@.dst_srs,
    {
        self.dst_srs.as_ref()
    }

    /// Override the source no-data value of every band.
    pub fn with_src_nodata(&mut self, nodata_value: u64) -> (r: &mut Self)
        ensures
            (*r)@ == (OptionsView { src_nodata: Some(nodata_value), ..old(self)@ }),
            *final(self) == *final(r),
    {
        self.src_nodata = Some(nodata_value);
        self
    }

    /// The source no-data override, if any.
    pub fn src_nodata(&self) -> (r: Option<u64>)
        ensures
            r == self@.src_nodata,
    {
        self.src_nodata
    }

    /// Set the no-data value written to every band of the destination.
    pub fn with_dst_nodata(&mut self, nodata_value: u64) -> (r: &mut Self)
        ensures
            (*r)@ == (OptionsView { dst_nodata: Some(nodata_value), ..old(self)@ }),
            *final(self) == *final(r),
    {
        self.dst_nodata = Some(nodata_value);
        self
    }

    /// The destination no-data value, if any.
    pub fn dst_nodata(&self) -> (r: Option<u64>)
        ensures
            r == self@.dst_nodata,
    {
        self.dst_nodata
    }

    /// The general warp configuration under construction.
    pub fn warp_options(&self) -> (r: &GdalWarpOptions)
        ensures
            r@ == self@.warp_options,
    {
        &self.warp_options
    }

    /// The general warp configuration, for changing it in place.
    pub fn warp_options_mut(&mut self) -> (r: &mut GdalWarpOptions)
        ensures
            (*r)@ == old(self)@.warp_options,
            final(self)@ == (OptionsView { warp_options: (*final(r))@, ..old(self)@ }),
    {
        &mut self.warp_options
    }

    /// A fresh warp configuration for one run over `band_count` bands: a
    /// copy of the configuration held here, sized and filled with the
    /// no-data overrides, its working pixel type settled. These settings
    /// stay as they are and can be used for any number of runs.
    pub fn clone_and_init_warp_options(
        &self,
        band_count: usize,
    ) -> (r: Result<GdalWarpOptions, GdalError>)
        ensures
            r is Ok,
            r.unwrap()@ == self@.compiled(band_count),
            r.unwrap()@.wf(),
    {
        init_warp_options(&self.warp_options, self.src_nodata, self.dst_nodata, band_count)
    }
}

impl Clone for ReprojectIntoOptions {
    fn clone(&self) -> (r: Self)
        ensures
            r@ == self@,
    {
        ReprojectIntoOptions {
            warp_options: self.warp_options.clone(),
            max_error: self.max_error,
            src_srs: clone_srs(&self.src_srs),
            dst_srs: clone_srs(&self.dst_srs),
            src_nodata: self.src_nodata,
            dst_nodata: self.dst_nodata,
        }
    }
}

impl Default for ReprojectIntoOptions {
    fn default() -> (r: Self)
        ensures
            r@ == OptionsView::empty(),
    {
        ReprojectIntoOptions::new()
    }
}

} // verus!
