//! Reprojection of a raster into a new file.

use vstd::prelude::*;
use crate::engine::{EngineReply, EngineRequest, WarpCall};
use crate::errors::GdalError;
use crate::reproject_options::{
    clone_srs, clone_text, init_warp_options, srs_view, srs_view_ref, text_view, OptionsView,
};
use crate::spatial_ref::SpatialRef;
use crate::warp_options::GdalWarpOptions;

verus! {

/// Settings of [`create_and_reproject`].
#[derive(Debug, PartialEq, Eq)]
pub struct CreateReprojectOptions {
    warp_options: GdalWarpOptions,
    max_error: Option<u64>,
    src_srs: Option<SpatialRef>,
    src_nodata: Option<u64>,
    dst_nodata: Option<u64>,
    output_format: Option<String>,
}

impl View for CreateReprojectOptions {
    type V = OptionsView;

    closed spec fn view(&self) -> OptionsView {
        OptionsView {
            warp_options: self.warp_options@,
            max_error: self.max_error,
            src_srs: srs_view(self.src_srs),
            dst_srs: None,
            src_nodata: self.src_nodata,
            dst_nodata: self.dst_nodata,
            output_format: text_view(self.output_format),
        }
    }
}

impl CreateReprojectOptions {
    /// Settings with nothing chosen.
    pub fn new() -> (r: Self)
        ensures
            r@ == OptionsView::empty(),
    {
        CreateReprojectOptions {
            warp_options: GdalWarpOptions::new(),
            max_error: None,
            src_srs: None,
            src_nodata: None,
            dst_nodata: None,
            output_format: None,
        }
    }

    /// Set the maximum error, in source pixels, allowed when the transform
    /// is approximated. The bit pattern of `0.0` asks for exact calculation.
    pub fn with_max_error(&mut self, max_error: u64) -> (r: &mut Self)
        ensures
            (*r)@ == (OptionsView { max_error: Some(max_error), ..old(self)@ }),
            *final(self) == *final(r),
    {
        self.max_error = Some(max_error);
        self
    }

    /// The maximum error, if one was set.
    pub fn max_error(&self) -> (r: Option<u64>)
        ensures
            r == self@.max_error,
    {
        self.max_error
    }

    /// Override the source projection. While none is set, the engine reads
    /// it from the source dataset.
    pub fn with_src_projection(&mut self, srs: &SpatialRef) -> (r: &mut Self)
        ensures
            (*r)@ == (OptionsView { src_srs: Some(srs@), ..old(self)@ }),
            *final(self) == *final(r),
    {
        self.src_srs = Some(srs.clone());
        self
    }

    /// The source projection override, if any.
    pub fn src_projection(&self) -> (r: Option<&SpatialRef>)
        ensures
            srs_view_ref(r) == self@.src_srs,
    {
        self.src_srs.as_ref()
    }

    /// Override the source no-data value of every band.
    pub fn with_src_nodata(&mut self, nodata_value: u64) -> (r: &mut Self)
        ensures
            (*r)@ == (OptionsView { src_nodata: Some(nodata_value), ..old(self)@ }),
            *final(self) == *final(r),
    {
        self.src_nodata = Some(nodata_value);
        self
    }

    /// The source no-data override, if any.
    pub fn src_nodata(&self) -> (r: Option<u64>)
        ensures
            r == self@.src_nodata,
    {
        self.src_nodata
    }

    /// Set the no-data value written to every band of the destination.
    pub fn with_dst_nodata(&mut self, nodata_value: u64) -> (r: &mut Self)
        ensures
            (*r)@ == (OptionsView { dst_nodata: Some(nodata_value), ..old(self)@ }),
            *final(self) == *final(r),
    {
        self.dst_nodata = Some(nodata_value);
        self
    }

    /// The destination no-data value, if any.
    pub fn dst_nodata(&self) -> (r: Option<u64>)
        ensures
            r == self@.dst_nodata,
    {
        self.dst_nodata
    }

    /// Name the output raster format by its driver identifier (`GTiff`,
    /// `COG`, `VRT`, ...). While none is set, the source dataset's driver
    /// is used.
    pub fn with_output_format(&mut self, format: &str) -> (r: &mut Self)
        ensures
            (*r)@ == (OptionsView { output_format: Some(format@), ..old(self)@ }),
            *final(self) == *final(r),
    {
        self.output_format = Some(format.to_owned());
        self
    }

    /// The driver identifier of the output format, if one was named.
    pub fn output_format(&self) -> (r: Option<String>)
        ensures
            text_view(r) == self@.output_format,
    {
        clone_text(&self.output_format)
    }

    /// The general warp configuration under construction.
    pub fn warp_options(&self) -> (r: &GdalWarpOptions)
        ensures
            r@ == self@.warp_options,
    {
        &self.warp_options
    }

    /// The general warp configuration, for changing it in place.
    pub fn warp_options_mut(&mut self) -> (r: &mut GdalWarpOptions)
        ensures
            (*r)@ == old(self)@.warp_options,
            final(self)@ == (OptionsView { warp_options: (*final(r))@, ..old(self)@ }),
    {
        &mut self.warp_options
    }

    /// A fresh warp configuration for one run over `band_count` bands: a
    /// copy of the configuration held here, sized and filled with the
    /// no-data overrides, its working pixel type settled. These settings
    /// stay as they are and can be used for any number of runs.
    pub fn clone_and_init_warp_options(
        &self,
        band_count: usize,
    ) -> (r: Result<GdalWarpOptions, GdalError>)
        ensures
            r is Ok,
            r.unwrap()@ == self@.compiled(band_count),
            r.unwrap()@.wf(),
    {
        init_warp_options(&self.warp_options, self.src_nodata, self.dst_nodata, band_count)
    }
}

impl Clone for CreateReprojectOptions {
    fn clone(&self) -> (r: Self)
        ensures
            r@ == self@,
    {
        CreateReprojectOptions {
            warp_options: self.warp_options.clone(),
            max_error: self.max_error,
            src_srs: clone_srs(&self.src_srs),
            src_nodata: self.src_nodata,
            dst_nodata: self.dst_nodata,
            output_format: clone_text(&self.output_format),
        }
    }
}

impl Default for CreateReprojectOptions {
    fn default() -> (r: Self)
        ensures
            r@ == OptionsView::empty(),
    {
        CreateReprojectOptions::new()
    }
}

/// What a job needs to know of the source dataset.
#[derive(Debug, PartialEq, Eq)]
pub struct SourceInfo {
    /// Identifier of the driver the source was opened with.
    pub driver: String,
    /// Number of raster bands.
    pub band_count: usize,
}

/// Where a job stands: which reply it waits for.
#[derive(Clone, Copy, Debug, PartialEq, Eq, Structural)]
pub enum JobPhase {
    /// Waits for the text of the destination projection.
    AwaitDstWkt,
    /// Waits for the text of the source projection override.
    AwaitSrcWkt,
    /// Waits for the driver lookup.
    AwaitDriver,
    /// Waits for the engine's status.
    AwaitEngine,
    /// Waits for the created file to be reopened.
    AwaitOutput,
    /// Waits for the no-data value of band `band` of `count` to be recorded.
    AwaitBand { band: usize, count: usize },
    /// Nothing more is asked.
    Done,
}

/// One run of create-and-reproject: its inputs, what it has learned, and
/// where it stands.
#[derive(Debug, PartialEq, Eq)]
pub struct CreateReprojectJob {
    pub phase: JobPhase,
    pub source: SourceInfo,
    pub dst_file: String,
    pub dst_srs: SpatialRef,
    /// The job's own copy of the caller's settings.
    pub options: CreateReprojectOptions,
    /// Text of the destination projection, once known.
    pub dst_wkt: Option<String>,
    /// Text of the source projection override, once known.
    pub src_wkt: Option<String>,
}

impl CreateReprojectJob {
    /// The same job in another phase.
    pub open spec fn at(self, phase: JobPhase) -> CreateReprojectJob {
        CreateReprojectJob { phase, ..self }
    }

    /// Identifier of the driver that writes the output: the format that was
    /// named, else the source dataset's own driver.
    pub open spec fn driver_name(self) -> Seq<char> {
        match self.options@.output_format {
            Some(format) => format,
            None => self.source.driver@,
        }
    }

    /// `call` is the engine call this job makes: projections as learned,
    /// the resolved driver, the error tolerance with its default, and a
    /// configuration compiled for the source's band count.
    pub open spec fn is_warp_call(self, call: WarpCall) -> bool {
        &&& call.src_wkt == self.src_wkt
        &&& call.dst_file == self.dst_file
        &&& self.dst_wkt == Some(call.dst_wkt)
        &&& call.driver@ == self.driver_name()
        &&& call.max_error == self.options@.effective_max_error()
        &&& call.warp_options@ == self.options@.compiled(self.source.band_count)
        &&& call.resampling_alg == call.warp_options@.resampling_alg
        &&& call.memory_limit == call.warp_options@.memory_limit
    }

    /// The job ends with `error`.
    pub open spec fn fails(phase: JobPhase, request: EngineRequest, error: GdalError) -> bool {
        phase == JobPhase::Done && request == EngineRequest::Finish(
            Err::<(), GdalError>(error),
        )
    }

    /// The job ends well.
    pub open spec fn succeeds(phase: JobPhase, request: EngineRequest) -> bool {
        phase == JobPhase::Done && request == EngineRequest::Finish(Ok::<(), GdalError>(()))
    }

    /// With the driver settled, the engine is called. A job that never
    /// learned its destination text has been driven out of turn.
    pub open spec fn proceeds_to_warp(self, phase: JobPhase, request: EngineRequest) -> bool {
        if self.dst_wkt is Some {
            &&& phase == JobPhase::AwaitEngine
            &&& request matches EngineRequest::Warp(call)
            &&& self.is_warp_call(call)
        } else {
            Self::fails(phase, request, GdalError::UnexpectedEvent)
        }
    }

    /// With the projections settled, a named output format is looked up in
    /// the registry; without one the engine is called at once.
    pub open spec fn proceeds_to_driver(self, phase: JobPhase, request: EngineRequest) -> bool {
        match self.options@.output_format {
            Some(format) => {
                &&& phase == JobPhase::AwaitDriver
                &&& request matches EngineRequest::FindDriver(name)
                &&& name@ == format
            },
            None => self.proceeds_to_warp(phase, request),
        }
    }

    /// With the destination text known, a source projection override is
    /// serialised next; without one the driver is settled.
    pub open spec fn proceeds_to_source_projection(
        self,
        phase: JobPhase,
        request: EngineRequest,
    ) -> bool {
        match self.options@.src_srs {
            Some(definition) => {
                &&& phase == JobPhase::AwaitSrcWkt
                &&& request matches EngineRequest::ExportWkt(srs)
                &&& srs@ == definition
            },
            None => self.proceeds_to_driver(phase, request),
        }
    }

    /// After band `done` of `count`, the destination no-data value goes to
    /// the next band; after the last one the job ends well. A job without a
    /// destination no-data value has nothing to record.
    pub open spec fn proceeds_to_band(
        self,
        done: usize,
        count: usize,
        phase: JobPhase,
        request: EngineRequest,
    ) -> bool {
        match self.options@.dst_nodata {
            Some(value) if done < count => {
                &&& phase == (JobPhase::AwaitBand { band: (done + 1) as usize, count })
                &&& request == (EngineRequest::SetNoData { band: (done + 1) as usize, value })
            },
            _ => Self::succeeds(phase, request),
        }
    }

    /// After a successful warp, a requested destination no-data value still
    /// has to be recorded in the file, which the engine does not do: the
    /// file is reopened. Without such a value the job ends well.
    pub open spec fn proceeds_to_fixup(self, phase: JobPhase, request: EngineRequest) -> bool {
        if self.options@.dst_nodata is Some {
            phase == JobPhase::AwaitOutput && request == EngineRequest::OpenOutput(self.dst_file)
        } else {
            Self::succeeds(phase, request)
        }
    }

    /// What one step does: `pre` receives `reply`, becomes `post` and asks
    /// for `request`. Inputs and settings never change; a reply that does
    /// not answer the pending request ends the job.
    pub open spec fn resumed(
        pre: CreateReprojectJob,
        reply: EngineReply,
        post: CreateReprojectJob,
        request: EngineRequest,
    ) -> bool {
        match (pre.phase, reply) {
            (JobPhase::AwaitDstWkt, EngineReply::Wkt(Ok(text))) => {
                let learned = CreateReprojectJob { dst_wkt: Some(text), ..pre };
                post == learned.at(post.phase) && learned.proceeds_to_source_projection(
                    post.phase,
                    request,
                )
            },
            (JobPhase::AwaitSrcWkt, EngineReply::Wkt(Ok(text))) => {
                let learned = CreateReprojectJob { src_wkt: Some(text), ..pre };
                post == learned.at(post.phase) && learned.proceeds_to_driver(post.phase, request)
            },
            (JobPhase::AwaitDstWkt, EngineReply::Wkt(Err(message)))
            | (JobPhase::AwaitSrcWkt, EngineReply::Wkt(Err(message))) => {
                post == pre.at(post.phase) && Self::fails(
                    post.phase,
                    request,
                    GdalError::SrsSerialization(message),
                )
            },
            (JobPhase::AwaitDriver, EngineReply::Driver(true)) => {
                post == pre.at(post.phase) && pre.proceeds_to_warp(post.phase, request)
            },
            (JobPhase::AwaitDriver, EngineReply::Driver(false)) => {
                &&& post == pre.at(JobPhase::Done)
                &&& request matches EngineRequest::Finish(Err(GdalError::UnknownDriver(name)))
                &&& name@ == pre.driver_name()
            },
            (JobPhase::AwaitEngine, EngineReply::Warped(Ok(()))) => {
                post == pre.at(post.phase) && pre.proceeds_to_fixup(post.phase, request)
            },
            (JobPhase::AwaitEngine, EngineReply::Warped(Err(message))) => {
                post == pre.at(post.phase) && Self::fails(
                    post.phase,
                    request,
                    GdalError::Engine(message),
                )
            },
            (JobPhase::AwaitOutput, EngineReply::Opened(Ok(count))) => {
                post == pre.at(post.phase) && pre.proceeds_to_band(0, count, post.phase, request)
            },
            (JobPhase::AwaitBand { band, count }, EngineReply::NoDataSet(Ok(()))) => {
                post == pre.at(post.phase) && pre.proceeds_to_band(
                    band,
                    count,
                    post.phase,
                    request,
                )
            },
            (JobPhase::AwaitOutput, EngineReply::Opened(Err(message)))
            | (JobPhase::AwaitBand { .. }, EngineReply::NoDataSet(Err(message))) => {
                post == pre.at(post.phase) && Self::fails(
                    post.phase,
                    request,
                    GdalError::NoDataFixup(message),
                )
            },
            _ => {
                post == pre.at(post.phase) && Self::fails(
                    post.phase,
                    request,
                    GdalError::UnexpectedEvent,
                )
            },
        }
    }

    fn fail(&mut self, error: GdalError) -> (request: EngineRequest)
        ensures
            *final(self) == old(self).at(JobPhase::Done),
            Self::fails(final(self).phase, request, error),
    {
        self.phase = JobPhase::Done;
        EngineRequest::Finish(Err(error))
    }

    fn succeed(&mut self) -> (request: EngineRequest)
        ensures
            *final(self) == old(self).at(JobPhase::Done),
            Self::succeeds(final(self).phase, request),
    {
        self.phase = JobPhase::Done;
        EngineRequest::Finish(Ok(()))
    }

    fn request_warp(&mut self) -> (request: EngineRequest)
        ensures
            *final(self) == old(self).at(final(self).phase),
            old(self).proceeds_to_warp(final(self).phase, request),
    {
        let dst_wkt = match &self.dst_wkt {
            Some(text) => text.clone(),
            None => {
                return self.fail(GdalError::UnexpectedEvent);
            },
        };
        let driver = match self.options.output_format() {
            Some(format) => format,
            None => self.source.driver.clone(),
        };
        let warp_options = match self.options.clone_and_init_warp_options(
            self.source.band_count,
        ) {
            Ok(compiled) => compiled,
            Err(e) => {
                return self.fail(e);
            },
        };
        let max_error = match self.options.max_error() {
            Some(e) => e,
            None => 0,
        };
        let call = WarpCall {
            src_wkt: clone_text(&self.src_wkt),
            dst_file: self.dst_file.clone(),
            dst_wkt,
            driver,
            resampling_alg: warp_options.resampling_alg(),
            memory_limit: warp_options.memory_limit(),
            max_error,
            warp_options,
        };
        self.phase = JobPhase::AwaitEngine;
        EngineRequest::Warp(call)
    }

    fn request_driver(&mut self) -> (request: EngineRequest)
        ensures
            *final(self) == old(self).at(final(self).phase),
            old(self).proceeds_to_driver(final(self).phase, request),
    {
        match self.options.output_format() {
            Some(format) => {
                self.phase = JobPhase::AwaitDriver;
                EngineRequest::FindDriver(format)
            },
            None => self.request_warp(),
        }
    }

    fn request_source_projection(&mut self) -> (request: EngineRequest)
        ensures
            *final(self) == old(self).at(final(self).phase),
            old(self).proceeds_to_source_projection(final(self).phase, request),
    {
        match self.options.src_projection() {
            Some(srs) => {
                let srs = srs.clone();
                self.phase = JobPhase::AwaitSrcWkt;
                EngineRequest::ExportWkt(srs)
            },
            None => self.request_driver(),
        }
    }

    fn request_band(&mut self, done: usize, count: usize) -> (request: EngineRequest)
        ensures
            *final(self) == old(self).at(final(self).phase),
            old(self).proceeds_to_band(done, count, final(self).phase, request),
    {
        match self.options.dst_nodata() {
            Some(value) => {
                if done < count {
                    let band: usize = done + 1;
                    self.phase = JobPhase::AwaitBand { band, count };
                    EngineRequest::SetNoData { band, value }
                } else {
                    self.succeed()
                }
            },
            None => self.succeed(),
        }
    }

    fn request_fixup(&mut self) -> (request: EngineRequest)
        ensures
            *final(self) == old(self).at(final(self).phase),
            old(self).proceeds_to_fixup(final(self).phase, request),
    {
        if self.options.dst_nodata().is_some() {
            self.phase = JobPhase::AwaitOutput;
            EngineRequest::OpenOutput(self.dst_file.clone())
        } else {
            self.succeed()
        }
    }

    /// Take the reply to the pending request and say what to do next.
    /// After `Finish` the job is over; resuming it again only reports that
    /// the reply was not expected.
    pub fn resume(&mut self, reply: EngineReply) -> (request: EngineRequest)
        ensures
            Self::resumed(*old(self), reply, *final(self), request),
    {
        match (self.phase, reply) {
            (JobPhase::AwaitDstWkt, EngineReply::Wkt(Ok(text))) => {
                self.dst_wkt = Some(text);
                self.request_source_projection()
            },
            (JobPhase::AwaitSrcWkt, EngineReply::Wkt(Ok(text))) => {
                self.src_wkt = Some(text);
                self.request_driver()
            },
            (JobPhase::AwaitDstWkt, EngineReply::Wkt(Err(message))) => {
                self.fail(GdalError::SrsSerialization(message))
            },
            (JobPhase::AwaitSrcWkt, EngineReply::Wkt(Err(message))) => {
                self.fail(GdalError::SrsSerialization(message))
            },
            (JobPhase::AwaitDriver, EngineReply::Driver(true)) => self.request_warp(),
            (JobPhase::AwaitDriver, EngineReply::Driver(false)) => {
                let name = match self.options.output_format() {
                    Some(format) => format,
                    None => self.source.driver.clone(),
                };
                self.phase = JobPhase::Done;
                EngineRequest::Finish(Err(GdalError::UnknownDriver(name)))
            },
            (JobPhase::AwaitEngine, EngineReply::Warped(Ok(()))) => self.request_fixup(),
            (JobPhase::AwaitEngine, EngineReply::Warped(Err(message))) => {
                self.fail(GdalError::Engine(message))
            },
            (JobPhase::AwaitOutput, EngineReply::Opened(Ok(count))) => {
                self.request_band(0, count)
            },
            (JobPhase::AwaitBand { band, count }, EngineReply::NoDataSet(Ok(()))) => {
                self.request_band(band, count)
            },
            (JobPhase::AwaitOutput, EngineReply::Opened(Err(message))) => {
                self.fail(GdalError::NoDataFixup(message))
            },
            (JobPhase::AwaitBand { .. }, EngineReply::NoDataSet(Err(message))) => {
                self.fail(GdalError::NoDataFixup(message))
            },
            _ => self.fail(GdalError::UnexpectedEvent),
        }
    }
}

/// Begin to reproject the dataset described by `source` into the spatial
/// reference system `dst_srs`, saving the result to `dst_file`. Returns the
/// job and its first request, the text of `dst_srs`. The job works on a
/// copy of `options`.
pub fn create_and_reproject(
    source: SourceInfo,
    dst_file: &str,
    dst_srs: &SpatialRef,
    options: &CreateReprojectOptions,
) -> (r: (CreateReprojectJob, EngineRequest))
    ensures
        r.0.phase == JobPhase::AwaitDstWkt,
        r.0.source == source,
        r.0.dst_file@ == dst_file@,
        r.0.dst_srs == *dst_srs,
        r.0.options@ == options@,
        r.0.dst_wkt is None,
        r.0.src_wkt is None,
        r.1 == EngineRequest::ExportWkt(*dst_srs),
{
    let job = CreateReprojectJob {
        phase: JobPhase::AwaitDstWkt,
        source,
        dst_file: dst_file.to_owned(),
        dst_srs: dst_srs.clone(),
        options: options.clone(),
        dst_wkt: None,
        src_wkt: None,
    };
    (job, EngineRequest::ExportWkt(dst_srs.clone()))
}

} // verus!
