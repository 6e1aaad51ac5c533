use warp_reproject::{
    create_and_reproject, init_warp_options, reproject_image, reproject_into,
    CreateReprojectJob, CreateReprojectOptions, EngineReply, EngineRequest, GdalDataType,
    GdalError, GdalWarpOptions, JobPhase, ReprojectCall, ReprojectIntoOptions, ReprojectOptions,
    ReprojectPhase, SourceInfo, SpatialRef, WarpCall, WarpResampleAlg, WorkingDataType,
};

/// A stand-in for the warp engine that answers from a script and records
/// what it was asked.
struct ScriptedEngine {
    drivers: Vec<String>,
    bands: usize,
    bad_srs: Vec<String>,
    warp_fails: Option<String>,
    open_fails: Option<String>,
    failing_band: Option<usize>,
    exported: Vec<String>,
    lookups: Vec<String>,
    warps: Vec<WarpCall>,
    reprojects: Vec<ReprojectCall>,
    opened: Vec<String>,
    nodata: Vec<Option<f64>>,
}

fn engine(bands: usize) -> ScriptedEngine {
    ScriptedEngine {
        drivers: vec!["GTiff".to_string(), "COG".to_string(), "VRT".to_string()],
        bands,
        bad_srs: Vec::new(),
        warp_fails: None,
        open_fails: None,
        failing_band: None,
        exported: Vec::new(),
        lookups: Vec::new(),
        warps: Vec::new(),
        reprojects: Vec::new(),
        opened: Vec::new(),
        nodata: vec![None; bands],
    }
}

fn wkt_of(definition: &str) -> String {
    format!("WKT[{}]", definition)
}

fn answer(e: &mut ScriptedEngine, request: EngineRequest) -> Result<EngineReply, Result<(), GdalError>> {
    match request {
        EngineRequest::ExportWkt(srs) => {
            let d = match srs {
                SpatialRef::Epsg(code) => format!("EPSG:{}", code),
                SpatialRef::Definition(text) => text,
            };
            e.exported.push(d.clone());
            if e.bad_srs.contains(&d) {
                Ok(EngineReply::Wkt(Err(format!("cannot serialise {}", d))))
            } else {
                Ok(EngineReply::Wkt(Ok(wkt_of(&d))))
            }
        }
        EngineRequest::FindDriver(name) => {
            let found = e.drivers.contains(&name);
            e.lookups.push(name);
            Ok(EngineReply::Driver(found))
        }
        EngineRequest::Warp(call) => {
            e.warps.push(call);
            match &e.warp_fails {
                Some(m) => Ok(EngineReply::Warped(Err(m.clone()))),
                None => Ok(EngineReply::Warped(Ok(()))),
            }
        }
        EngineRequest::Reproject(call) => {
            e.reprojects.push(call);
            match &e.warp_fails {
                Some(m) => Ok(EngineReply::Warped(Err(m.clone()))),
                None => Ok(EngineReply::Warped(Ok(()))),
            }
        }
        EngineRequest::OpenOutput(path) => {
            e.opened.push(path);
            match &e.open_fails {
                Some(m) => Ok(EngineReply::Opened(Err(m.clone()))),
                None => Ok(EngineReply::Opened(Ok(e.bands))),
            }
        }
        EngineRequest::SetNoData { band, value } => {
            if e.failing_band == Some(band) {
                Ok(EngineReply::NoDataSet(Err(format!("band {} is read-only", band))))
            } else {
                e.nodata[band - 1] = Some(f64::from_bits(value));
                Ok(EngineReply::NoDataSet(Ok(())))
            }
        }
        EngineRequest::Finish(result) => Err(result),
    }
}

fn run(e: &mut ScriptedEngine, job: &mut CreateReprojectJob, first: EngineRequest) -> Result<(), GdalError> {
    let mut request = first;
    for _ in 0..1000 {
        match answer(e, request) {
            Ok(reply) => request = job.resume(reply),
            Err(result) => return result,
        }
    }
    panic!("the job did not end");
}

fn labels() -> SourceInfo {
    SourceInfo { driver: "GTiff".to_string(), band_count: 1 }
}

fn source(driver: &str, band_count: usize) -> SourceInfo {
    SourceInfo { driver: driver.to_string(), band_count }
}

#[test]
fn warp_reproject() {
    let dst_srs = SpatialRef::from_epsg(4269);
    let dest = "target/labels-proj.tif";

    let mut opts = CreateReprojectOptions::default();
    opts.with_output_format("GTiff")
        .with_dst_nodata(255.0f64.to_bits())
        .warp_options_mut()
        .with_resampling_alg(WarpResampleAlg::NearestNeighbour);

    let mut e = engine(1);
    let (mut job, first) = create_and_reproject(labels(), dest, &dst_srs, &opts);
    assert_eq!(run(&mut e, &mut job, first), Ok(()));

    assert_eq!(e.nodata[0], Some(255.0));
    assert_eq!(e.warps.len(), 1);
    let call = &e.warps[0];
    assert_eq!(call.driver, "GTiff");
    assert_eq!(call.dst_file, dest);
    assert_eq!(call.dst_wkt, wkt_of("EPSG:4269"));
    assert_eq!(call.src_wkt, None);
    assert_eq!(call.resampling_alg, WarpResampleAlg::NearestNeighbour);
    assert_eq!(f64::from_bits(call.max_error), 0.0);
    assert_eq!(call.warp_options.band_count(), Some(1));
    assert_eq!(call.warp_options.dst_nodata(0).map(f64::from_bits), Some(255.0));
    assert_eq!(e.opened, vec![dest.to_string()]);
}

#[test]
fn compiling_twice_gives_equal_configurations() {
    let mut opts = ReprojectOptions::new();
    opts.with_src_nodata(0.0f64.to_bits()).with_dst_nodata(255.0f64.to_bits());
    opts.warp_options_mut().with_working_datatype(GdalDataType::UInt8).with_memory_limit(1 << 20);
    let before = opts.clone();
    let a = opts.clone_and_init_warp_options(3).unwrap();
    let b = opts.clone_and_init_warp_options(3).unwrap();
    assert_eq!(a, b);
    assert_eq!(opts, before);
    assert_eq!(opts.warp_options().band_count(), None);
    assert_eq!(a.working_datatype(), Some(GdalDataType::UInt8));
    assert_eq!(a.memory_limit(), 1 << 20);
    let again = init_warp_options(&a, opts.src_nodata(), opts.dst_nodata(), 3).unwrap();
    assert_eq!(again, a);
}

#[test]
fn overrides_reach_every_band() {
    for n in [1usize, 2, 3, 7] {
        let mut opts = ReprojectIntoOptions::new();
        opts.with_src_nodata((-9999.0f64).to_bits()).with_dst_nodata(255.0f64.to_bits());
        let w = opts.clone_and_init_warp_options(n).unwrap();
        assert_eq!(w.band_count(), Some(n));
        for i in 0..n {
            assert_eq!(w.src_nodata(i).map(f64::from_bits), Some(-9999.0));
            assert_eq!(w.dst_nodata(i).map(f64::from_bits), Some(255.0));
        }
        assert_eq!(w.src_nodata(n), None);
        assert_eq!(w.dst_nodata(n), None);
    }
}

#[test]
fn one_override_sizes_for_both() {
    let mut opts = ReprojectOptions::new();
    opts.with_dst_nodata(255.0f64.to_bits());
    let w = opts.clone_and_init_warp_options(2).unwrap();
    assert_eq!(w.band_count(), Some(2));
    assert_eq!(w.src_nodata(0), None);
    assert_eq!(w.dst_nodata(1), Some(255.0f64.to_bits()));
}

#[test]
fn no_override_leaves_the_band_count_unset() {
    let opts = ReprojectOptions::new();
    let w = opts.clone_and_init_warp_options(4).unwrap();
    assert_eq!(w.band_count(), None);
    assert_eq!(w.src_nodata(0), None);
    assert_eq!(w.dst_nodata(0), None);
    assert_eq!(w.working_datatype(), None);
    assert_eq!(w.working_datatype_choice(), WorkingDataType::Auto);
}

#[test]
fn zero_bands_compile_to_empty_arrays() {
    let mut opts = ReprojectOptions::new();
    opts.with_src_nodata(1.0f64.to_bits());
    let w = opts.clone_and_init_warp_options(0).unwrap();
    assert_eq!(w.band_count(), Some(0));
    assert_eq!(w.src_nodata(0), None);
}

#[test]
fn explicit_working_datatype_survives_compilation() {
    let mut opts = ReprojectIntoOptions::new();
    opts.warp_options_mut().with_working_datatype(GdalDataType::Float32);
    let w = opts.clone_and_init_warp_options(1).unwrap();
    assert_eq!(w.working_datatype(), Some(GdalDataType::Float32));
    assert_eq!(w.working_datatype_choice(), WorkingDataType::Explicit(GdalDataType::Float32));
}

#[test]
fn nodata_before_band_count_is_refused() {
    let mut w = GdalWarpOptions::new();
    assert_eq!(w.apply_src_nodata(5.0f64.to_bits()), Err(GdalError::BandCountNotSet));
    assert_eq!(w.apply_dst_nodata(5.0f64.to_bits()), Err(GdalError::BandCountNotSet));
    assert_eq!(w, GdalWarpOptions::new());
    w.with_band_count(2);
    assert_eq!(w.apply_src_nodata(5.0f64.to_bits()), Ok(()));
    assert_eq!(w.src_nodata(1).map(f64::from_bits), Some(5.0));
    assert_eq!(w.dst_nodata(0), None);
    w.with_band_count(3);
    assert_eq!(w.src_nodata(0), None);
    assert_eq!(w.band_count(), Some(3));
}

#[test]
fn max_error_defaults_to_zero() {
    let opts = CreateReprojectOptions::new();
    assert_eq!(opts.max_error(), None);
    let mut e = engine(1);
    let srs = SpatialRef::from_definition("EPSG:4326");
    let (mut job, first) = create_and_reproject(labels(), "out.tif", &srs, &opts);
    assert_eq!(run(&mut e, &mut job, first), Ok(()));
    assert_eq!(e.warps[0].max_error, 0);
    assert_eq!(f64::from_bits(e.warps[0].max_error), 0.0);

    let mut opts = CreateReprojectOptions::new();
    opts.with_max_error(0.125f64.to_bits());
    let mut e = engine(1);
    let (mut job, first) = create_and_reproject(labels(), "out.tif", &srs, &opts);
    assert_eq!(run(&mut e, &mut job, first), Ok(()));
    assert_eq!(f64::from_bits(e.warps[0].max_error), 0.125);
}

#[test]
fn output_format_defaults_to_the_source_driver() {
    let opts = CreateReprojectOptions::new();
    let mut e = engine(2);
    let srs = SpatialRef::from_definition("EPSG:4326");
    let (mut job, first) = create_and_reproject(source("HFA", 2), "out.img", &srs, &opts);
    assert_eq!(run(&mut e, &mut job, first), Ok(()));
    assert_eq!(e.warps[0].driver, "HFA");
    assert!(e.lookups.is_empty());
    assert!(e.opened.is_empty());
    assert_eq!(e.warps[0].warp_options.band_count(), None);
}

#[test]
fn named_output_format_is_looked_up_and_used() {
    let mut opts = CreateReprojectOptions::new();
    opts.with_output_format("COG");
    assert_eq!(opts.output_format(), Some("COG".to_string()));
    let mut e = engine(1);
    let srs = SpatialRef::from_definition("EPSG:4326");
    let (mut job, first) = create_and_reproject(labels(), "out.tif", &srs, &opts);
    assert_eq!(run(&mut e, &mut job, first), Ok(()));
    assert_eq!(e.lookups, vec!["COG".to_string()]);
    assert_eq!(e.warps[0].driver, "COG");
}

#[test]
fn unknown_driver_fails_before_the_engine_runs() {
    let mut opts = CreateReprojectOptions::new();
    opts.with_output_format("NoSuchFormat").with_dst_nodata(255.0f64.to_bits());
    let mut e = engine(1);
    let srs = SpatialRef::from_definition("EPSG:4269");
    let (mut job, first) = create_and_reproject(labels(), "out.tif", &srs, &opts);
    assert_eq!(
        run(&mut e, &mut job, first),
        Err(GdalError::UnknownDriver("NoSuchFormat".to_string()))
    );
    assert!(e.warps.is_empty());
    assert!(e.opened.is_empty());
    assert_eq!(e.nodata, vec![None]);
    assert_eq!(job.phase, JobPhase::Done);
}

#[test]
fn destination_nodata_is_recorded_on_every_band() {
    let mut opts = CreateReprojectOptions::new();
    opts.with_dst_nodata(255.0f64.to_bits());
    let mut e = engine(3);
    let srs = SpatialRef::from_definition("EPSG:4269");
    let (mut job, first) = create_and_reproject(source("GTiff", 3), "out.tif", &srs, &opts);
    let mut request = first;
    let mut seen_before_fixup: Option<Vec<Option<f64>>> = None;
    let result = loop {
        if let EngineRequest::OpenOutput(_) = &request {
            seen_before_fixup = Some(e.nodata.clone());
        }
        match answer(&mut e, request) {
            Ok(reply) => request = job.resume(reply),
            Err(result) => break result,
        }
    };
    assert_eq!(result, Ok(()));
    assert_eq!(seen_before_fixup, Some(vec![None, None, None]));
    assert_eq!(e.nodata, vec![Some(255.0), Some(255.0), Some(255.0)]);
}

#[test]
fn without_destination_nodata_nothing_is_reopened() {
    let mut opts = CreateReprojectOptions::new();
    opts.with_src_nodata(0.0f64.to_bits());
    let mut e = engine(2);
    let srs = SpatialRef::from_definition("EPSG:4269");
    let (mut job, first) = create_and_reproject(source("GTiff", 2), "out.tif", &srs, &opts);
    assert_eq!(run(&mut e, &mut job, first), Ok(()));
    assert!(e.opened.is_empty());
    assert_eq!(e.nodata, vec![None, None]);
    assert_eq!(e.warps[0].warp_options.src_nodata(1), Some(0.0f64.to_bits()));
    assert_eq!(e.warps[0].warp_options.dst_nodata(0), None);
}

#[test]
fn source_projection_override_takes_precedence() {
    let over = SpatialRef::from_definition("EPSG:26918");
    let mut opts = CreateReprojectOptions::new();
    opts.with_src_projection(&over);
    assert_eq!(opts.src_projection(), Some(&over));
    let mut e = engine(1);
    let srs = SpatialRef::from_definition("EPSG:4269");
    let (mut job, first) = create_and_reproject(labels(), "out.tif", &srs, &opts);
    assert_eq!(first, EngineRequest::ExportWkt(srs.clone()));
    assert_eq!(run(&mut e, &mut job, first), Ok(()));
    assert_eq!(e.exported, vec!["EPSG:4269".to_string(), "EPSG:26918".to_string()]);
    assert_eq!(e.warps[0].src_wkt, Some(wkt_of("EPSG:26918")));
    assert_eq!(e.warps[0].dst_wkt, wkt_of("EPSG:4269"));
}

#[test]
fn malformed_destination_projection_fails() {
    let opts = CreateReprojectOptions::new();
    let mut e = engine(1);
    e.bad_srs.push("bogus".to_string());
    let srs = SpatialRef::from_definition("bogus");
    let (mut job, first) = create_and_reproject(labels(), "out.tif", &srs, &opts);
    assert_eq!(
        run(&mut e, &mut job, first),
        Err(GdalError::SrsSerialization("cannot serialise bogus".to_string()))
    );
    assert!(e.warps.is_empty());
}

#[test]
fn malformed_source_projection_fails() {
    let mut opts = CreateReprojectOptions::new();
    opts.with_src_projection(&SpatialRef::from_definition("bogus")).with_output_format("GTiff");
    let mut e = engine(1);
    e.bad_srs.push("bogus".to_string());
    let srs = SpatialRef::from_definition("EPSG:4269");
    let (mut job, first) = create_and_reproject(labels(), "out.tif", &srs, &opts);
    assert_eq!(
        run(&mut e, &mut job, first),
        Err(GdalError::SrsSerialization("cannot serialise bogus".to_string()))
    );
    assert!(e.lookups.is_empty());
    assert!(e.warps.is_empty());
}

#[test]
fn engine_failure_carries_the_engine_message() {
    let mut opts = CreateReprojectOptions::new();
    opts.with_dst_nodata(255.0f64.to_bits());
    let mut e = engine(1);
    e.warp_fails = Some("out of memory".to_string());
    let srs = SpatialRef::from_definition("EPSG:4269");
    let (mut job, first) = create_and_reproject(labels(), "out.tif", &srs, &opts);
    let r = run(&mut e, &mut job, first);
    assert_eq!(r, Err(GdalError::Engine("out of memory".to_string())));
    assert!(!r.unwrap_err().is_partial_success());
    assert!(e.opened.is_empty());
}

#[test]
fn fixup_failures_are_told_apart() {
    let mut opts = CreateReprojectOptions::new();
    opts.with_dst_nodata(255.0f64.to_bits());
    let srs = SpatialRef::from_definition("EPSG:4269");

    let mut e = engine(2);
    e.open_fails = Some("no such file".to_string());
    let (mut job, first) = create_and_reproject(source("GTiff", 2), "out.tif", &srs, &opts);
    let r = run(&mut e, &mut job, first);
    assert_eq!(r, Err(GdalError::NoDataFixup("no such file".to_string())));
    assert!(r.unwrap_err().is_partial_success());

    let mut e = engine(3);
    e.failing_band = Some(2);
    let (mut job, first) = create_and_reproject(source("GTiff", 3), "out.tif", &srs, &opts);
    let r = run(&mut e, &mut job, first);
    assert_eq!(r, Err(GdalError::NoDataFixup("band 2 is read-only".to_string())));
    assert_eq!(e.nodata, vec![Some(255.0), None, None]);
}

#[test]
fn a_reply_out_of_turn_ends_the_job() {
    let opts = CreateReprojectOptions::new();
    let srs = SpatialRef::from_definition("EPSG:4269");
    let (mut job, _first) = create_and_reproject(labels(), "out.tif", &srs, &opts);
    assert_eq!(job.phase, JobPhase::AwaitDstWkt);
    let request = job.resume(EngineReply::Driver(true));
    assert_eq!(request, EngineRequest::Finish(Err(GdalError::UnexpectedEvent)));
    assert_eq!(job.phase, JobPhase::Done);
    let request = job.resume(EngineReply::Wkt(Ok("x".to_string())));
    assert_eq!(request, EngineRequest::Finish(Err(GdalError::UnexpectedEvent)));
}

#[test]
fn the_job_does_not_change_the_callers_settings() {
    let mut opts = CreateReprojectOptions::new();
    opts.with_dst_nodata(255.0f64.to_bits()).with_src_nodata(0.0f64.to_bits());
    let before = opts.clone();
    let srs = SpatialRef::from_definition("EPSG:4269");
    for _ in 0..2 {
        let mut e = engine(2);
        let (mut job, first) = create_and_reproject(source("GTiff", 2), "out.tif", &srs, &opts);
        assert_eq!(run(&mut e, &mut job, first), Ok(()));
        assert_eq!(job.options, before);
        assert_eq!(e.warps[0].warp_options.band_count(), Some(2));
    }
    assert_eq!(opts, before);
    assert_eq!(opts.warp_options().band_count(), None);
}

#[test]
fn reproject_image_makes_the_plain_call() {
    let request = reproject_image(None);
    assert_eq!(
        request,
        EngineRequest::Reproject(ReprojectCall {
            src_wkt: None,
            dst_wkt: None,
            resampling_alg: WarpResampleAlg::Bilinear,
            memory_limit: 0,
            max_error: 0.0f64.to_bits(),
            warp_options: None,
        })
    );
    assert_eq!(
        reproject_image(Some(EngineReply::Warped(Ok(())))),
        EngineRequest::Finish(Ok(()))
    );
    assert_eq!(
        reproject_image(Some(EngineReply::Warped(Err("bad SRS".to_string())))),
        EngineRequest::Finish(Err(GdalError::Engine("bad SRS".to_string())))
    );
    assert_eq!(
        reproject_image(Some(EngineReply::Driver(true))),
        EngineRequest::Finish(Err(GdalError::UnexpectedEvent))
    );
}

#[test]
fn reproject_into_resolves_both_projections() {
    let mut opts = ReprojectIntoOptions::new();
    let s = SpatialRef::from_definition("EPSG:26918");
    let d = SpatialRef::from_definition("EPSG:4269");
    opts.with_src_projection(&s)
        .with_dst_projection(&d)
        .with_dst_nodata(255.0f64.to_bits())
        .with_max_error(0.5f64.to_bits());
    assert_eq!(opts.dst_projection(), Some(&d));
    opts.warp_options_mut().with_resampling_alg(WarpResampleAlg::Cubic).with_memory_limit(4096);

    let (mut job, first) = reproject_into(2, &opts);
    assert_eq!(first, EngineRequest::ExportWkt(s.clone()));
    assert_eq!(job.phase, ReprojectPhase::AwaitSrcWkt);
    let second = job.resume(EngineReply::Wkt(Ok("SRC".to_string())));
    assert_eq!(second, EngineRequest::ExportWkt(d.clone()));
    let third = job.resume(EngineReply::Wkt(Ok("DST".to_string())));
    match third {
        EngineRequest::Reproject(call) => {
            assert_eq!(call.src_wkt, Some("SRC".to_string()));
            assert_eq!(call.dst_wkt, Some("DST".to_string()));
            assert_eq!(call.resampling_alg, WarpResampleAlg::Bilinear);
            assert_eq!(call.memory_limit, 4096);
            assert_eq!(f64::from_bits(call.max_error), 0.5);
            let w = call.warp_options.unwrap();
            assert_eq!(w.band_count(), Some(2));
            assert_eq!(w.dst_nodata(1).map(f64::from_bits), Some(255.0));
            assert_eq!(w.resampling_alg(), WarpResampleAlg::Cubic);
        }
        other => panic!("unexpected request {:?}", other),
    }
    assert_eq!(job.phase, ReprojectPhase::AwaitEngine);
    let last = job.resume(EngineReply::Warped(Err("disk full".to_string())));
    assert_eq!(last, EngineRequest::Finish(Err(GdalError::Engine("disk full".to_string()))));
    assert_eq!(job.phase, ReprojectPhase::Done);
}

#[test]
fn reproject_into_without_overrides_calls_the_engine_at_once() {
    let opts = ReprojectIntoOptions::new();
    let (mut job, first) = reproject_into(1, &opts);
    match first {
        EngineRequest::Reproject(call) => {
            assert_eq!(call.src_wkt, None);
            assert_eq!(call.dst_wkt, None);
            assert_eq!(call.max_error, 0);
            assert_eq!(call.warp_options.unwrap().band_count(), None);
        }
        other => panic!("unexpected request {:?}", other),
    }
    assert_eq!(job.resume(EngineReply::Warped(Ok(()))), EngineRequest::Finish(Ok(())));
}

#[test]
fn reproject_into_reports_a_malformed_projection() {
    let mut opts = ReprojectIntoOptions::new();
    opts.with_dst_projection(&SpatialRef::from_definition("bogus"));
    let (mut job, first) = reproject_into(1, &opts);
    assert_eq!(first, EngineRequest::ExportWkt(SpatialRef::from_definition("bogus")));
    assert_eq!(job.phase, ReprojectPhase::AwaitDstWkt);
    let r = job.resume(EngineReply::Wkt(Err("corrupt".to_string())));
    assert_eq!(r, EngineRequest::Finish(Err(GdalError::SrsSerialization("corrupt".to_string()))));
}

#[test]
fn resampling_rules_have_the_engine_numbers() {
    assert_eq!(WarpResampleAlg::NearestNeighbour.to_gdal(), 0);
    assert_eq!(WarpResampleAlg::Bilinear.to_gdal(), 1);
    assert_eq!(WarpResampleAlg::Mode.to_gdal(), 6);
    assert_eq!(WarpResampleAlg::Max.to_gdal(), 8);
    assert_eq!(WarpResampleAlg::Rms.to_gdal(), 14);
    assert_eq!(WarpResampleAlg::Lanczos.to_gdal(), 4);
    assert_eq!(WarpResampleAlg::Q3.to_gdal(), 12);
    assert_eq!(WarpResampleAlg::default(), WarpResampleAlg::NearestNeighbour);
}

#[test]
fn spatial_references_keep_their_definition() {
    assert_eq!(SpatialRef::from_epsg(4269), SpatialRef::Epsg(4269));
    assert_eq!(
        SpatialRef::from_definition("+proj=longlat"),
        SpatialRef::Definition("+proj=longlat".to_string())
    );
    assert_ne!(SpatialRef::from_epsg(4269), SpatialRef::from_definition("EPSG:4269"));
    let s = SpatialRef::from_epsg(3857);
    assert_eq!(s.clone(), s);
}

#[test]
fn pixel_types_have_the_engine_numbers() {
    assert_eq!(GdalDataType::Unknown.gdal_ordinal(), 0);
    assert_eq!(GdalDataType::UInt8.gdal_ordinal(), 1);
    assert_eq!(GdalDataType::Float64.gdal_ordinal(), 7);
    assert_eq!(GdalDataType::Int8.gdal_ordinal(), 14);
}

#[test]
fn settings_start_empty_and_keep_what_is_set() {
    let mut opts = ReprojectOptions::new();
    assert_eq!(opts, ReprojectOptions::default());
    assert_eq!(opts.max_error(), None);
    assert_eq!(opts.src_projection(), None);
    assert_eq!(opts.src_nodata(), None);
    assert_eq!(opts.dst_nodata(), None);
    assert_eq!(opts.output_format(), None);
    assert_eq!(opts.warp_options(), &GdalWarpOptions::new());
    let srs = SpatialRef::from_definition("EPSG:3857");
    opts.with_max_error(1.5f64.to_bits())
        .with_src_projection(&srs)
        .with_src_nodata(0.0f64.to_bits())
        .with_dst_nodata(255.0f64.to_bits())
        .with_output_format("VRT");
    assert_eq!(opts.max_error().map(f64::from_bits), Some(1.5));
    assert_eq!(opts.src_projection(), Some(&SpatialRef::Definition("EPSG:3857".to_string())));
    assert_eq!(opts.src_nodata().map(f64::from_bits), Some(0.0));
    assert_eq!(opts.dst_nodata().map(f64::from_bits), Some(255.0));
    assert_eq!(opts.output_format(), Some("VRT".to_string()));
    opts.warp_options_mut().with_auto_working_datatype();
    assert_eq!(opts.warp_options().working_datatype_choice(), WorkingDataType::Auto);
    assert_eq!(opts.warp_options().working_datatype(), None);
}
