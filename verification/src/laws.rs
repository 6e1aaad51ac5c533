//! Laws that hold of compilation and of the jobs, whatever the inputs.

use vstd::prelude::*;
use crate::create_and_reproject::{CreateReprojectJob, JobPhase};
use crate::engine::{EngineReply, EngineRequest, ReprojectCall, WarpCall};
use crate::errors::GdalError;
use crate::reproject_image::{ReprojectIntoJob, ReprojectPhase};
use crate::reproject_options::{compiled_warp_options, OptionsView};
use crate::resample::WarpResampleAlg;
use crate::warp_options::{WarpOptionsView, WorkingDataType};

verus! {

/// Compiling the same settings twice for the same band count gives two
/// configurations with the same no-data values, the same working pixel
/// type, and the same everything else.
pub proof fn compiling_twice_agrees(
    options: OptionsView,
    band_count: usize,
    first: WarpOptionsView,
    second: WarpOptionsView,
)
    requires
        first == options.compiled(band_count),
        second == options.compiled(band_count),
    ensures
        first.src_nodata == second.src_nodata,
        first.dst_nodata == second.dst_nodata,
        first.working_datatype == second.working_datatype,
        first == second,
{
}

/// Compiling what was already compiled, with the same overrides and band
/// count, changes nothing.
pub proof fn compiling_is_idempotent(
    draft: WarpOptionsView,
    src_nodata: Option<u64>,
    dst_nodata: Option<u64>,
    band_count: usize,
)
    ensures
        compiled_warp_options(
            compiled_warp_options(draft, src_nodata, dst_nodata, band_count),
            src_nodata,
            dst_nodata,
            band_count,
        ) == compiled_warp_options(draft, src_nodata, dst_nodata, band_count),
{
    let once = compiled_warp_options(draft, src_nodata, dst_nodata, band_count);
    let twice = compiled_warp_options(once, src_nodata, dst_nodata, band_count);
    assert(twice.src_nodata =~= once.src_nodata);
    assert(twice.dst_nodata =~= once.dst_nodata);
}

/// A no-data override is never lost: whatever the band count, the compiled
/// configuration is sized for it and holds the override on every band. The
/// compiled configuration is well formed, and it never leaves the working
/// pixel type undecided.
pub proof fn override_reaches_every_band(
    draft: WarpOptionsView,
    src_nodata: Option<u64>,
    dst_nodata: Option<u64>,
    band_count: usize,
)
    requires
        draft.wf(),
    ensures
        ({
            let c = compiled_warp_options(draft, src_nodata, dst_nodata, band_count);
            &&& c.wf()
            &&& c.working_datatype != WorkingDataType::Unspecified
            &&& (src_nodata is Some || dst_nodata is Some) ==> c.band_count == Some(band_count)
            &&& src_nodata is Some ==> c.src_nodata.len() == band_count && forall|i: int|
                0 <= i < band_count ==> c.src_nodata[i] == src_nodata.unwrap()
            &&& dst_nodata is Some ==> c.dst_nodata.len() == band_count && forall|i: int|
                0 <= i < band_count ==> c.dst_nodata[i] == dst_nodata.unwrap()
        }),
{
}

/// Without a no-data override compilation sizes nothing: band count and
/// per-band values stay as the draft has them.
pub proof fn no_override_sizes_nothing(draft: WarpOptionsView, band_count: usize)
    ensures
        compiled_warp_options(draft, None, None, band_count).band_count == draft.band_count,
        compiled_warp_options(draft, None, None, band_count).src_nodata == draft.src_nodata,
        compiled_warp_options(draft, None, None, band_count).dst_nodata == draft.dst_nodata,
{
}

/// While no output format is named, the engine is called with the source
/// dataset's own driver; once one is named, with that one.
pub proof fn driver_defaults_to_the_sources(job: CreateReprojectJob, call: WarpCall)
    requires
        job.is_warp_call(call),
    ensures
        job.options@.output_format is None ==> call.driver@ == job.source.driver@,
        job.options@.output_format is Some ==> call.driver@ == job.options@.output_format.unwrap(),
{
}

/// While no error tolerance is set, the engine is called with the bit
/// pattern of `0.0`; once one is set, with that one.
pub proof fn max_error_defaults_to_zero(job: CreateReprojectJob, call: WarpCall)
    requires
        job.is_warp_call(call),
    ensures
        job.options@.max_error is None ==> call.max_error == 0,
        job.options@.max_error is Some ==> call.max_error == job.options@.max_error.unwrap(),
{
}

/// A source projection override takes precedence: the text the engine is
/// called with is the text that came back for the override. Without an
/// override a job that has learned no source text passes none, and the
/// engine reads the projection from the source dataset.
pub proof fn source_override_takes_precedence(
    pre: CreateReprojectJob,
    reply: EngineReply,
    post: CreateReprojectJob,
    request: EngineRequest,
)
    requires
        CreateReprojectJob::resumed(pre, reply, post, request),
        request is Warp,
    ensures
        pre.phase == JobPhase::AwaitSrcWkt ==> reply is Wkt && request->Warp_0.src_wkt == Some(
            reply->Wkt_0->Ok_0,
        ),
        pre.phase == JobPhase::AwaitDstWkt ==> pre.options@.src_srs is None
            && request->Warp_0.src_wkt == pre.src_wkt,
{
}

/// Once the destination text is known, a source projection override is
/// the next thing serialised, before any driver or engine is asked.
pub proof fn source_override_is_serialised(
    pre: CreateReprojectJob,
    text: String,
    post: CreateReprojectJob,
    request: EngineRequest,
)
    requires
        CreateReprojectJob::resumed(pre, EngineReply::Wkt(Ok(text)), post, request),
        pre.phase == JobPhase::AwaitDstWkt,
        pre.options@.src_srs is Some,
    ensures
        request is ExportWkt,
        request->ExportWkt_0@ == pre.options@.src_srs.unwrap(),
        post.phase == JobPhase::AwaitSrcWkt,
{
}

/// An output format the registry does not know ends the job with the
/// unknown-driver error, which names the format.
pub proof fn unknown_driver_ends_the_job(
    pre: CreateReprojectJob,
    post: CreateReprojectJob,
    request: EngineRequest,
)
    requires
        CreateReprojectJob::resumed(pre, EngineReply::Driver(false), post, request),
        pre.phase == JobPhase::AwaitDriver,
    ensures
        post.phase == JobPhase::Done,
        request is Finish,
        request->Finish_0 is Err,
        request->Finish_0->Err_0 is UnknownDriver,
        request->Finish_0->Err_0->UnknownDriver_0@ == pre.driver_name(),
{
}

/// With an output format named, the engine is called in one situation only:
/// right after the registry has confirmed the driver.
pub proof fn no_engine_call_before_the_driver_is_found(
    pre: CreateReprojectJob,
    reply: EngineReply,
    post: CreateReprojectJob,
    request: EngineRequest,
)
    requires
        CreateReprojectJob::resumed(pre, reply, post, request),
        pre.options@.output_format is Some,
        request is Warp,
    ensures
        pre.phase == JobPhase::AwaitDriver,
        reply == EngineReply::Driver(true),
{
}

/// A step never changes the job's inputs or settings, and only a projection
/// text that just came back is added to what the job has learned.
pub proof fn a_step_keeps_the_inputs(
    pre: CreateReprojectJob,
    reply: EngineReply,
    post: CreateReprojectJob,
    request: EngineRequest,
)
    requires
        CreateReprojectJob::resumed(pre, reply, post, request),
    ensures
        post.source == pre.source,
        post.dst_file == pre.dst_file,
        post.dst_srs == pre.dst_srs,
        post.options == pre.options,
        post.dst_wkt == pre.dst_wkt || (pre.phase == JobPhase::AwaitDstWkt && reply is Wkt),
        post.src_wkt == pre.src_wkt || (pre.phase == JobPhase::AwaitSrcWkt && reply is Wkt),
{
}

/// A failure reported by the engine ends the job at once, with the
/// engine's message and nothing else.
pub proof fn engine_failure_is_passed_on(
    pre: CreateReprojectJob,
    message: String,
    post: CreateReprojectJob,
    request: EngineRequest,
)
    requires
        CreateReprojectJob::resumed(pre, EngineReply::Warped(Err(message)), post, request),
        pre.phase == JobPhase::AwaitEngine,
    ensures
        post.phase == JobPhase::Done,
        request == EngineRequest::Finish(Err::<(), GdalError>(GdalError::Engine(message))),
{
}

/// After a successful warp a requested destination no-data value is still
/// owed to the file: the job reopens the output instead of ending.
pub proof fn success_is_followed_by_the_fixup(
    pre: CreateReprojectJob,
    post: CreateReprojectJob,
    request: EngineRequest,
)
    requires
        CreateReprojectJob::resumed(pre, EngineReply::Warped(Ok(())), post, request),
        pre.phase == JobPhase::AwaitEngine,
    ensures
        pre.options@.dst_nodata is Some ==> request == EngineRequest::OpenOutput(pre.dst_file)
            && post.phase == JobPhase::AwaitOutput,
        pre.options@.dst_nodata is None ==> request == EngineRequest::Finish(
            Ok::<(), GdalError>(()),
        ) && post.phase == JobPhase::Done,
{
}

/// The fixup visits the bands in order, each with the destination no-data
/// value: the first band after the file is opened, and band `b + 1` after
/// band `b`.
pub proof fn fixup_visits_the_bands_in_order(
    pre: CreateReprojectJob,
    reply: EngineReply,
    post: CreateReprojectJob,
    request: EngineRequest,
)
    requires
        CreateReprojectJob::resumed(pre, reply, post, request),
        request is SetNoData,
    ensures
        pre.options@.dst_nodata == Some(request->SetNoData_value),
        post.phase is AwaitBand,
        post.phase->AwaitBand_band == request->SetNoData_band,
        pre.phase is AwaitOutput ==> request->SetNoData_band == 1 && reply is Opened
            && reply->Opened_0 is Ok && post.phase->AwaitBand_count == reply->Opened_0->Ok_0,
        pre.phase is AwaitBand ==> request->SetNoData_band == pre.phase->AwaitBand_band + 1
            && request->SetNoData_band <= pre.phase->AwaitBand_count
            && post.phase->AwaitBand_count == pre.phase->AwaitBand_count,
        pre.phase is AwaitOutput || pre.phase is AwaitBand,
{
}

/// When a destination no-data value was requested, the job reports success
/// only after the last band's value was recorded (or for a file without
/// bands).
pub proof fn success_only_after_the_last_band(
    pre: CreateReprojectJob,
    reply: EngineReply,
    post: CreateReprojectJob,
    request: EngineRequest,
)
    requires
        CreateReprojectJob::resumed(pre, reply, post, request),
        pre.options@.dst_nodata is Some,
        request == EngineRequest::Finish(Ok::<(), GdalError>(())),
    ensures
        (pre.phase is AwaitBand && reply is NoDataSet && reply->NoDataSet_0 is Ok
            && pre.phase->AwaitBand_band >= pre.phase->AwaitBand_count) || (pre.phase
            == JobPhase::AwaitOutput && reply == EngineReply::Opened(Ok(0))),
{
}

/// A fixup in which everything goes well: the output is reopened and found
/// to have `count` bands, and each recording succeeds. `jobs` are the
/// states the job passes through, `requests` what it asks along the way.
pub open spec fn is_successful_fixup(
    jobs: Seq<CreateReprojectJob>,
    requests: Seq<EngineRequest>,
    count: usize,
) -> bool {
    &&& jobs.len() == count + 2
    &&& requests.len() == count + 1
    &&& jobs[0].phase == JobPhase::AwaitOutput
    &&& CreateReprojectJob::resumed(
        jobs[0],
        EngineReply::Opened(Ok(count)),
        jobs[1],
        requests[0],
    )
    &&& forall|i: int|
        1 <= i <= count ==> CreateReprojectJob::resumed(
            #[trigger] jobs[i],
            EngineReply::NoDataSet(Ok(())),
            jobs[i + 1],
            requests[i],
        )
}

/// Where a successful fixup stands after `k` of its steps.
proof fn fixup_after(
    jobs: Seq<CreateReprojectJob>,
    requests: Seq<EngineRequest>,
    count: usize,
    value: u64,
    k: int,
)
    requires
        is_successful_fixup(jobs, requests, count),
        jobs[0].options@.dst_nodata == Some(value),
        0 <= k <= count,
    ensures
        jobs[k + 1].options == jobs[0].options,
        k < count ==> jobs[k + 1].phase == (JobPhase::AwaitBand { band: (k + 1) as usize, count })
            && requests[k] == (EngineRequest::SetNoData { band: (k + 1) as usize, value }),
        k == count ==> jobs[k + 1].phase == JobPhase::Done && requests[k]
            == EngineRequest::Finish(Ok::<(), GdalError>(())),
    decreases k,
{
    if k > 0 {
        fixup_after(jobs, requests, count, value, k - 1);
        assert(CreateReprojectJob::resumed(
            jobs[k],
            EngineReply::NoDataSet(Ok(())),
            jobs[k + 1],
            requests[k],
        ));
    }
}

/// A successful fixup records the destination no-data value on every band
/// of the output, band 1 first and band `count` last, and only then
/// reports success.
pub proof fn fixup_records_every_band(
    jobs: Seq<CreateReprojectJob>,
    requests: Seq<EngineRequest>,
    count: usize,
    value: u64,
)
    requires
        is_successful_fixup(jobs, requests, count),
        jobs[0].options@.dst_nodata == Some(value),
    ensures
        forall|b: int|
            1 <= b <= count ==> #[trigger] requests[b - 1] == (EngineRequest::SetNoData {
                band: b as usize,
                value,
            }),
        requests[count as int] == EngineRequest::Finish(Ok::<(), GdalError>(())),
        jobs[count + 1].phase == JobPhase::Done,
{
    assert forall|b: int| 1 <= b <= count implies #[trigger] requests[b - 1] == (
    EngineRequest::SetNoData { band: b as usize, value }) by {
        fixup_after(jobs, requests, count, value, b - 1);
    }
    fixup_after(jobs, requests, count, value, count as int);
}

/// A failure while the output is reopened or a band's value is recorded is
/// reported as a fixup failure, apart from every other kind: the raster
/// itself was written.
pub proof fn fixup_failure_is_told_apart(
    pre: CreateReprojectJob,
    reply: EngineReply,
    post: CreateReprojectJob,
    request: EngineRequest,
)
    requires
        CreateReprojectJob::resumed(pre, reply, post, request),
        request is Finish,
        request->Finish_0 is Err,
    ensures
        request->Finish_0->Err_0.spec_is_partial_success() <==> ((pre.phase is AwaitOutput
            && reply is Opened && reply->Opened_0 is Err) || (pre.phase is AwaitBand
            && reply is NoDataSet && reply->NoDataSet_0 is Err)),
{
}

/// A finished job stays finished.
pub proof fn done_is_final(
    pre: CreateReprojectJob,
    reply: EngineReply,
    post: CreateReprojectJob,
    request: EngineRequest,
)
    requires
        CreateReprojectJob::resumed(pre, reply, post, request),
        pre.phase == JobPhase::Done,
    ensures
        post.phase == JobPhase::Done,
        request == EngineRequest::Finish(Err::<(), GdalError>(GdalError::UnexpectedEvent)),
{
}

/// A reprojection into an existing dataset always resamples bilinearly,
/// whatever rule the settings name, and computes exactly unless an error
/// tolerance was set.
pub proof fn reprojection_into_is_bilinear(job: ReprojectIntoJob, call: ReprojectCall)
    requires
        job.is_reproject_call(call),
    ensures
        call.resampling_alg == WarpResampleAlg::Bilinear,
        job.options@.max_error is None ==> call.max_error == 0,
        job.options@.max_error is Some ==> call.max_error == job.options@.max_error.unwrap(),
{
}

/// A reprojection into an existing dataset ends with the engine's status:
/// success as success, a failure with the engine's message. Nothing is
/// fixed up afterwards.
pub proof fn reprojection_into_ends_with_the_engine(
    pre: ReprojectIntoJob,
    status: Result<(), String>,
    post: ReprojectIntoJob,
    request: EngineRequest,
)
    requires
        ReprojectIntoJob::resumed(pre, EngineReply::Warped(status), post, request),
        pre.phase == ReprojectPhase::AwaitEngine,
    ensures
        post.phase == ReprojectPhase::Done,
        status is Ok ==> request == EngineRequest::Finish(Ok::<(), GdalError>(())),
        status is Err ==> request == EngineRequest::Finish(
            Err::<(), GdalError>(GdalError::Engine(status->Err_0)),
        ),
{
}

} // verus!
