//! Reprojection of a raster into a dataset that already exists.
//!
//! The destination is expected to be sized and to carry its geotransform,
//! bands and no-data values already; nothing is fixed up after the warp.

use vstd::prelude::*;
use crate::engine::{EngineReply, EngineRequest, ReprojectCall};
use crate::errors::GdalError;
use crate::reproject_options::{clone_text, ReprojectIntoOptions};
use crate::resample::WarpResampleAlg;

verus! {

/// The engine's answer to a reprojection call, as the caller's result.
pub open spec fn engine_outcome(reply: EngineReply) -> Result<(), GdalError> {
    match reply {
        EngineReply::Warped(Ok(())) => Ok(()),
        EngineReply::Warped(Err(message)) => Err(GdalError::Engine(message)),
        _ => Err(GdalError::UnexpectedEvent),
    }
}

fn outcome_of(reply: EngineReply) -> (r: Result<(), GdalError>)
    ensures
        r == engine_outcome(reply),
{
    match reply {
        EngineReply::Warped(Ok(())) => Ok(()),
        EngineReply::Warped(Err(message)) => Err(GdalError::Engine(message)),
        _ => Err(GdalError::UnexpectedEvent),
    }
}

/// The call of a reprojection without settings: both projections read from
/// the datasets, bilinear resampling, exact calculation, every other
/// parameter left to the engine.
pub open spec fn plain_reproject_call(call: ReprojectCall) -> bool {
    &&& call.src_wkt is None
    &&& call.dst_wkt is None
    &&& call.resampling_alg == WarpResampleAlg::Bilinear
    &&& call.memory_limit == 0
    &&& call.max_error == 0
    &&& call.warp_options is None
}

/// Reproject one dataset into another. Called with `None` it asks for the
/// engine call; called with the engine's reply it ends with the caller's
/// result, an engine failure passed on with its message.
pub fn reproject_image(reply: Option<EngineReply>) -> (request: EngineRequest)
    ensures
        reply is None ==> (request matches EngineRequest::Reproject(call) && plain_reproject_call(
            call,
        )),
        reply is Some ==> request == EngineRequest::Finish(engine_outcome(reply.unwrap())),
{
    match reply {
        None => EngineRequest::Reproject(
            ReprojectCall {
                src_wkt: None,
                dst_wkt: None,
                resampling_alg: WarpResampleAlg::Bilinear,
                memory_limit: 0,
                max_error: 0,
                warp_options: None,
            },
        ),
        Some(reply) => EngineRequest::Finish(outcome_of(reply)),
    }
}

/// Where a reprojection into an existing dataset stands.
#[derive(Clone, Copy, Debug, PartialEq, Eq, Structural)]
pub enum ReprojectPhase {
    /// Waits for the text of the source projection override.
    AwaitSrcWkt,
    /// Waits for the text of the destination projection override.
    AwaitDstWkt,
    /// Waits for the engine's status.
    AwaitEngine,
    /// Nothing more is asked.
    Done,
}

/// One run of a reprojection into an existing dataset.
#[derive(Debug, PartialEq, Eq)]
pub struct ReprojectIntoJob {
    pub phase: ReprojectPhase,
    /// Band count the configuration is compiled for.
    pub band_count: usize,
    /// The job's own copy of the caller's settings.
    pub options: ReprojectIntoOptions,
    /// Text of the source projection override, once known.
    pub src_wkt: Option<String>,
    /// Text of the destination projection override, once known.
    pub dst_wkt: Option<String>,
}

impl ReprojectIntoJob {
    /// The same job in another phase.
    pub open spec fn at(self, phase: ReprojectPhase) -> ReprojectIntoJob {
        ReprojectIntoJob { phase, ..self }
    }

    /// `call` is the engine call this job makes: projections as learned,
    /// bilinear resampling, the error tolerance with its default, and a
    /// configuration compiled for the job's band count.
    pub open spec fn is_reproject_call(self, call: ReprojectCall) -> bool {
        &&& call.src_wkt == self.src_wkt
        &&& call.dst_wkt == self.dst_wkt
        &&& call.resampling_alg == WarpResampleAlg::Bilinear
        &&& call.max_error == self.options@.effective_max_error()
        &&& call.warp_options is Some
        &&& call.warp_options.unwrap()@ == self.options@.compiled(self.band_count)
        &&& call.memory_limit == self.options@.warp_options.memory_limit
    }

    /// With the projections settled, the engine is called.
    pub open spec fn proceeds_to_engine(
        self,
        phase: ReprojectPhase,
        request: EngineRequest,
    ) -> bool {
        &&& phase == ReprojectPhase::AwaitEngine
        &&& request matches EngineRequest::Reproject(call)
        &&& self.is_reproject_call(call)
    }

    /// A destination projection override is serialised before the engine
    /// is called.
    pub open spec fn proceeds_to_destination(
        self,
        phase: ReprojectPhase,
        request: EngineRequest,
    ) -> bool {
        match self.options@.dst_srs {
            Some(definition) => {
                &&& phase == ReprojectPhase::AwaitDstWkt
                &&& request matches EngineRequest::ExportWkt(srs)
                &&& srs@ == definition
            },
            None => self.proceeds_to_engine(phase, request),
        }
    }

    /// A source projection override is serialised first of all.
    pub open spec fn proceeds_to_source(
        self,
        phase: ReprojectPhase,
        request: EngineRequest,
    ) -> bool {
        match self.options@.src_srs {
            Some(definition) => {
                &&& phase == ReprojectPhase::AwaitSrcWkt
                &&& request matches EngineRequest::ExportWkt(srs)
                &&& srs@ == definition
            },
            None => self.proceeds_to_destination(phase, request),
        }
    }

    /// The job ends with `result`.
    pub open spec fn ends(
        phase: ReprojectPhase,
        request: EngineRequest,
        result: Result<(), GdalError>,
    ) -> bool {
        phase == ReprojectPhase::Done && request == EngineRequest::Finish(result)
    }

    /// What one step does: `pre` receives `reply`, becomes `post` and asks
    /// for `request`. A reply that does not answer the pending request ends
    /// the job.
    pub open spec fn resumed(
        pre: ReprojectIntoJob,
        reply: EngineReply,
        post: ReprojectIntoJob,
        request: EngineRequest,
    ) -> bool {
        match (pre.phase, reply) {
            (ReprojectPhase::AwaitSrcWkt, EngineReply::Wkt(Ok(text))) => {
                let learned = ReprojectIntoJob { src_wkt: Some(text), ..pre };
                post == learned.at(post.phase) && learned.proceeds_to_destination(
                    post.phase,
                    request,
                )
            },
            (ReprojectPhase::AwaitDstWkt, EngineReply::Wkt(Ok(text))) => {
                let learned = ReprojectIntoJob { dst_wkt: Some(text), ..pre };
                post == learned.at(post.phase) && learned.proceeds_to_engine(post.phase, request)
            },
            (ReprojectPhase::AwaitSrcWkt, EngineReply::Wkt(Err(message)))
            | (ReprojectPhase::AwaitDstWkt, EngineReply::Wkt(Err(message))) => {
                post == pre.at(post.phase) && Self::ends(
                    post.phase,
                    request,
                    Err(GdalError::SrsSerialization(message)),
                )
            },
            (ReprojectPhase::AwaitEngine, reply) => {
                post == pre.at(post.phase) && Self::ends(
                    post.phase,
                    request,
                    engine_outcome(reply),
                )
            },
            _ => {
                post == pre.at(post.phase) && Self::ends(
                    post.phase,
                    request,
                    Err(GdalError::UnexpectedEvent),
                )
            },
        }
    }

    fn end(&mut self, result: Result<(), GdalError>) -> (request: EngineRequest)
        ensures
            *final(self) == old(self).at(ReprojectPhase::Done),
            Self::ends(final(self).phase, request, result),
    {
        self.phase = ReprojectPhase::Done;
        EngineRequest::Finish(result)
    }

    fn request_engine(&mut self) -> (request: EngineRequest)
        ensures
            *final(self) == old(self).at(final(self).phase),
            old(self).proceeds_to_engine(final(self).phase, request),
    {
        let compiled = self.options.clone_and_init_warp_options(self.band_count);
        let max_error = match self.options.max_error() {
            Some(e) => e,
            None => 0,
        };
        let call = ReprojectCall {
            src_wkt: clone_text(&self.src_wkt),
            dst_wkt: clone_text(&self.dst_wkt),
            resampling_alg: WarpResampleAlg::Bilinear,
            memory_limit: self.options.warp_options().memory_limit(),
            max_error,
            warp_options: Some(compiled.unwrap()),
        };
        self.phase = ReprojectPhase::AwaitEngine;
        EngineRequest::Reproject(call)
    }

    fn request_destination(&mut self) -> (request: EngineRequest)
        ensures
            *final(self) == old(self).at(final(self).phase),
            old(self).proceeds_to_destination(final(self).phase, request),
    {
        match self.options.dst_projection() {
            Some(srs) => {
                let srs = srs.clone();
                self.phase = ReprojectPhase::AwaitDstWkt;
                EngineRequest::ExportWkt(srs)
            },
            None => self.request_engine(),
        }
    }

    fn request_source(&mut self) -> (request: EngineRequest)
        ensures
            *final(self) == old(self).at(final(self).phase),
            old(self).proceeds_to_source(final(self).phase, request),
    {
        match self.options.src_projection() {
            Some(srs) => {
                let srs = srs.clone();
                self.phase = ReprojectPhase::AwaitSrcWkt;
                EngineRequest::ExportWkt(srs)
            },
            None => self.request_destination(),
        }
    }

    /// Take the reply to the pending request and say what to do next.
    pub fn resume(&mut self, reply: EngineReply) -> (request: EngineRequest)
        ensures
            Self::resumed(*old(self), reply, *final(self), request),
    {
        match (self.phase, reply) {
            (ReprojectPhase::AwaitSrcWkt, EngineReply::Wkt(Ok(text))) => {
                self.src_wkt = Some(text);
                self.request_destination()
            },
            (ReprojectPhase::AwaitDstWkt, EngineReply::Wkt(Ok(text))) => {
                self.dst_wkt = Some(text);
                self.request_engine()
            },
            (ReprojectPhase::AwaitSrcWkt, EngineReply::Wkt(Err(message))) => {
                self.end(Err(GdalError::SrsSerialization(message)))
            },
            (ReprojectPhase::AwaitDstWkt, EngineReply::Wkt(Err(message))) => {
                self.end(Err(GdalError::SrsSerialization(message)))
            },
            (ReprojectPhase::AwaitEngine, reply) => {
                let result = outcome_of(reply);
                self.end(result)
            },
            _ => self.end(Err(GdalError::UnexpectedEvent)),
        }
    }
}

/// Begin to reproject a source dataset into an existing destination
/// dataset of `band_count` bands. Returns the job and its first request.
/// The job works on a copy of `options`.
pub fn reproject_into(band_count: usize, options: &ReprojectIntoOptions) -> (r: (
    ReprojectIntoJob,
    EngineRequest,
))
    ensures
        r.0.band_count == band_count,
        r.0.options@ == options@,
        r.0.src_wkt is None,
        r.0.dst_wkt is None,
        r.0.proceeds_to_source(r.0.phase, r.1),
{
    let mut job = ReprojectIntoJob {
        phase: ReprojectPhase::Done,
        band_count,
        options: options.clone(),
        src_wkt: None,
        dst_wkt: None,
    };
    let request = job.request_source();
    (job, request)
}

} // verus!
