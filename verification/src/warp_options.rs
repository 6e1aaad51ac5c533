//! The engine-facing warp configuration.

use vstd::prelude::*;
use crate::data_type::GdalDataType;
use crate::errors::GdalError;
use crate::resample::WarpResampleAlg;

verus! {

/// How the pixel type of the engine's working buffers is chosen.
#[derive(Clone, Copy, Debug, PartialEq, Eq, Structural)]
pub enum WorkingDataType {
    /// Nothing was decided yet.
    Unspecified,
    /// The engine derives the type from the source raster's native type.
    Auto,
    /// The caller fixed the type.
    Explicit(GdalDataType),
}

/// What a warp configuration holds, as plain mathematical values.
pub struct WarpOptionsView {
    pub resampling_alg: WarpResampleAlg,
    pub working_datatype: WorkingDataType,
    pub memory_limit: usize,
    pub band_count: Option<usize>,
    /// One source no-data value per band, or empty while none was applied.
    pub src_nodata: Seq<u64>,
    /// One destination no-data value per band, or empty while none was applied.
    pub dst_nodata: Seq<u64>,
}

impl WarpOptionsView {
    /// A per-band array is either absent or has exactly one entry per band.
    pub open spec fn sized(self, values: Seq<u64>) -> bool {
        values.len() == 0 || (self.band_count is Some && values.len() == self.band_count.unwrap())
    }

    /// Both per-band arrays agree with the band count.
    pub open spec fn wf(self) -> bool {
        self.sized(self.src_nodata) && self.sized(self.dst_nodata)
    }

    /// The configuration nobody has touched yet.
    pub open spec fn empty() -> WarpOptionsView {
        WarpOptionsView {
            resampling_alg: WarpResampleAlg::NearestNeighbour,
            working_datatype: WorkingDataType::Unspecified,
            memory_limit: 0,
            band_count: None,
            src_nodata: Seq::empty(),
            dst_nodata: Seq::empty(),
        }
    }

    /// Sizing for `n` bands discards per-band values of an earlier sizing.
    pub open spec fn with_band_count(self, n: usize) -> WarpOptionsView {
        WarpOptionsView {
            band_count: Some(n),
            src_nodata: Seq::empty(),
            dst_nodata: Seq::empty(),
            ..self
        }
    }

    /// `value` on every band, which needs the band count.
    pub open spec fn broadcast(self, value: u64) -> Seq<u64> {
        Seq::new(self.band_count.unwrap() as nat, |i: int| value)
    }
}

/// The mutable bag of parameters that the warp engine reads: resampling
/// rule, working pixel type, memory budget in bytes, band count and the
/// per-band no-data values. The per-band values exist only once the band
/// count is set.
#[derive(Debug, PartialEq, Eq)]
pub struct GdalWarpOptions {
    resampling_alg: WarpResampleAlg,
    working_datatype: WorkingDataType,
    memory_limit: usize,
    band_count: Option<usize>,
    src_nodata: Vec<u64>,
    dst_nodata: Vec<u64>,
}

impl View for GdalWarpOptions {
    type V = WarpOptionsView;

    closed spec fn view(&self) -> WarpOptionsView {
        WarpOptionsView {
            resampling_alg: self.resampling_alg,
            working_datatype: self.working_datatype,
            memory_limit: self.memory_limit,
            band_count: self.band_count,
            src_nodata: self.src_nodata@,
            dst_nodata: self.dst_nodata@,
        }
    }
}

/// A vector of `n` copies of `value`.
fn filled(n: usize, value: u64) -> (v: Vec<u64>)
    ensures
        v@ == Seq::new(n as nat, |i: int| value),
{
    let mut v: Vec<u64> = Vec::new();
    let mut i: usize = 0;
    while i < n
        invariant
            i <= n,
            v@ == Seq::new(i as nat, |j: int| value),
        decreases n - i,
    {
        v.push(value);
        i += 1;
        assert(v@ =~= Seq::new(i as nat, |j: int| value));
    }
    v
}

impl GdalWarpOptions {
    #[verifier::type_invariant]
    closed spec fn inv(self) -> bool {
        self@.wf()
    }

    /// An untouched configuration: nearest-neighbour resampling, no working
    /// type, no memory budget, no band count, no per-band values.
    pub fn new() -> (r: GdalWarpOptions)
        ensures
            r@ == WarpOptionsView::empty(),
            r@.wf(),
    {
        GdalWarpOptions {
            resampling_alg: WarpResampleAlg::NearestNeighbour,
            working_datatype: WorkingDataType::Unspecified,
            memory_limit: 0,
            band_count: None,
            src_nodata: Vec::new(),
            dst_nodata: Vec::new(),
        }
    }

    /// Choose the resampling rule.
    pub fn with_resampling_alg(&mut self, alg: WarpResampleAlg) -> (r: &mut Self)
        ensures
            (*r)@ == (WarpOptionsView { resampling_alg: alg, ..old(self)@ }),
            *final(self) == *final(r),
    {
        proof {
            use_type_invariant(&*self);
        }
        self.resampling_alg = alg;
        self
    }

    /// The resampling rule.
    pub fn resampling_alg(&self) -> (r: WarpResampleAlg)
        ensures
            r == self@.resampling_alg,
    {
        self.resampling_alg
    }

    /// Set the memory budget of the engine's tiling, in bytes.
    pub fn with_memory_limit(&mut self, bytes: usize) -> (r: &mut Self)
        ensures
            (*r)@ == (WarpOptionsView { memory_limit: bytes, ..old(self)@ }),
            *final(self) == *final(r),
    {
        proof {
            use_type_invariant(&*self);
        }
        self.memory_limit = bytes;
        self
    }

    /// The memory budget in bytes.
    pub fn memory_limit(&self) -> (r: usize)
        ensures
            r == self@.memory_limit,
    {
        self.memory_limit
    }

    /// Fix the pixel type of the engine's working buffers.
    pub fn with_working_datatype(&mut self, dt: GdalDataType) -> (r: &mut Self)
        ensures
            (*r)@ == (WarpOptionsView {
                working_datatype: WorkingDataType::Explicit(dt),
                ..old(self)@
            }),
            *final(self) == *final(r),
    {
        proof {
            use_type_invariant(&*self);
        }
        self.working_datatype = WorkingDataType::Explicit(dt);
        self
    }

    /// Leave the working pixel type to the engine, which derives it from the
    /// source raster's native type.
    pub fn with_auto_working_datatype(&mut self) -> (r: &mut Self)
        ensures
            (*r)@ == (WarpOptionsView { working_datatype: WorkingDataType::Auto, ..old(self)@ }),
            *final(self) == *final(r),
    {
        proof {
            use_type_invariant(&*self);
        }
        self.working_datatype = WorkingDataType::Auto;
        self
    }

    /// The working pixel type, if the caller fixed one.
    pub fn working_datatype(&self) -> (r: Option<GdalDataType>)
        ensures
            r == match self@.working_datatype {
                WorkingDataType::Explicit(dt) => Some(dt),
                _ => None,
            },
    {
        match self.working_datatype {
            WorkingDataType::Explicit(dt) => Some(dt),
            _ => None,
        }
    }

    /// How the working pixel type is chosen.
    pub fn working_datatype_choice(&self) -> (r: WorkingDataType)
        ensures
            r == self@.working_datatype,
    {
        self.working_datatype
    }

    /// Size the configuration for `n` bands. Per-band values applied under
    /// an earlier sizing are discarded.
    pub fn with_band_count(&mut self, n: usize) -> (r: &mut Self)
        ensures
            (*r)@ == old(self)@.with_band_count(n),
            *final(self) == *final(r),
    {
        proof {
            use_type_invariant(&*self);
        }
        self.src_nodata = Vec::new();
        self.dst_nodata = Vec::new();
        self.band_count = Some(n);
        self
    }

    /// The band count, once set. Every configuration keeps its per-band
    /// arrays in step with it.
    pub fn band_count(&self) -> (r: Option<usize>)
        ensures
            r == self@.band_count,
            self@.wf(),
    {
        proof {
            use_type_invariant(self);
        }
        self.band_count
    }

    /// Use `value` as the source no-data value of every band. Fails, and
    /// changes nothing, while the band count is not set.
    pub fn apply_src_nodata(&mut self, value: u64) -> (r: Result<(), GdalError>)
        ensures
            r is Ok <==> old(self)@.band_count is Some,
            r is Err ==> r == Err::<(), GdalError>(GdalError::BandCountNotSet)
                && final(self)@ == old(self)@,
            r is Ok ==> final(self)@ == (WarpOptionsView {
                src_nodata: old(self)@.broadcast(value),
                ..old(self)@
            }),
    {
        proof {
            use_type_invariant(&*self);
        }
        match self.band_count {
            Some(n) => {
                self.src_nodata = filled(n, value);
                Ok(())
            },
            None => Err(GdalError::BandCountNotSet),
        }
    }

    /// Use `value` as the destination no-data value of every band. Fails,
    /// and changes nothing, while the band count is not set.
    pub fn apply_dst_nodata(&mut self, value: u64) -> (r: Result<(), GdalError>)
        ensures
            r is Ok <==> old(self)@.band_count is Some,
            r is Err ==> r == Err::<(), GdalError>(GdalError::BandCountNotSet)
                && final(self)@ == old(self)@,
            r is Ok ==> final(self)@ == (WarpOptionsView {
                dst_nodata: old(self)@.broadcast(value),
                ..old(self)@
            }),
    {
        proof {
            use_type_invariant(&*self);
        }
        match self.band_count {
            Some(n) => {
                self.dst_nodata = filled(n, value);
                Ok(())
            },
            None => Err(GdalError::BandCountNotSet),
        }
    }

    /// The source no-data value of the band at `index` (counted from 0), if
    /// one was applied.
    pub fn src_nodata(&self, index: usize) -> (r: Option<u64>)
        ensures
            r == if index < self@.src_nodata.len() {
                Some(self@.src_nodata[index as int])
            } else {
                None
            },
    {
        if index < self.src_nodata.len() {
            Some(self.src_nodata[index])
        } else {
            None
        }
    }

    /// The destination no-data value of the band at `index` (counted from
    /// 0), if one was applied.
    pub fn dst_nodata(&self, index: usize) -> (r: Option<u64>)
        ensures
            r == if index < self@.dst_nodata.len() {
                Some(self@.dst_nodata[index as int])
            } else {
                None
            },
    {
        if index < self.dst_nodata.len() {
            Some(self.dst_nodata[index])
        } else {
            None
        }
    }
}

impl Clone for GdalWarpOptions {
    fn clone(&self) -> (r: Self)
        ensures
            r@ == self@,
            r@.wf(),
    {
        proof {
            use_type_invariant(self);
        }
        GdalWarpOptions {
            resampling_alg: self.resampling_alg,
            working_datatype: self.working_datatype,
            memory_limit: self.memory_limit,
            band_count: self.band_count,
            src_nodata: self.src_nodata.clone(),
            dst_nodata: self.dst_nodata.clone(),
        }
    }
}

impl Default for GdalWarpOptions {
    fn default() -> (r: Self)
        ensures
            r@ == WarpOptionsView::empty(),
    {
        GdalWarpOptions::new()
    }
}

} // verus!
