//! The presentation of HDR pictures and of pictures that never leave the graphics
//! processor: what is checked before anything is drawn, and what counts as shown.
use crate::error::Error;
use crate::geometry::Rect;
use crate::protocol;
use vstd::prelude::*;

verus! {

/// The most overlays in one picture.
pub const MAX_OVERLAYS: usize = 16;

/// The most pictures that the graphics processor works on.
pub const MAX_FLIGHTS: usize = 3;

/// How long a display may take to grant headroom, in nanoseconds.
pub const WARM_UP: u128 = 3_000_000_000;

/// The bit pattern of the double-precision one, and of infinity.
pub const ONE: u64 = 0x3FF0_0000_0000_0000;

pub const INFINITY: u64 = 0x7FF0_0000_0000_0000;

/// The code of limited-range NV12 surfaces, "420v".
pub const NV12_LIMITED: u32 = 0x3432_3076;

/// The bytes that a plane takes: full strides, and the last row without padding.
pub open spec fn plane_bytes(stride: usize, row_bytes: usize, rows: usize) -> int {
    stride * (rows - 1) + row_bytes
}

/// What is wrong with a plane of `length` bytes.
pub open spec fn plane_complaint(
    length: nat,
    stride: usize,
    row_bytes: usize,
    rows: usize,
) -> Option<Error> {
    if !(rows > 0 && stride >= row_bytes) {
        Some(Error::StrideTooSmall)
    } else if plane_bytes(stride, row_bytes, rows) > length {
        Some(Error::TruncatedPlane)
    } else {
        None
    }
}

pub fn validate_plane(bytes: &[u8], stride: usize, row_bytes: usize, rows: usize) -> (r: Result<
    (),
    Error,
>)
    ensures
        r is Ok <==> plane_complaint(bytes@.len(), stride, row_bytes, rows) is None,
        r matches Err(e) ==> plane_complaint(bytes@.len(), stride, row_bytes, rows) == Some(e),
{
    if !(rows > 0 && stride >= row_bytes) {
        return Err(Error::StrideTooSmall);
    }
    assert(0 <= stride * (rows - 1)) by (nonlinear_arith)
        requires
            rows > 0,
    ;
    let available: usize = bytes.len();
    match stride.checked_mul(rows - 1) {
        Some(full) => match full.checked_add(row_bytes) {
            Some(required) => if required <= available {
                Ok(())
            } else {
                Err(Error::TruncatedPlane)
            },
            None => Err(Error::TruncatedPlane),
        },
        None => Err(Error::TruncatedPlane),
    }
}

/// A picture in limited-range BT.2020 with PQ transfer: ten significant bits in the
/// upper part of each little-endian component of sixteen, chroma centred.
pub struct P010Frame<'a> {
    pub width: u32,
    pub height: u32,
    pub y: &'a [u8],
    pub uv: &'a [u8],
    pub y_stride: usize,
    pub uv_stride: usize,
}

impl<'a> P010Frame<'a> {
    pub open spec fn even(&self) -> bool {
        self.width % 2 == 0 && self.height % 2 == 0
    }

    /// Both planes hold all their rows.
    pub open spec fn complete(&self) -> bool {
        &&& self.y_stride >= self.width * 2
        &&& self.y_stride * (self.height - 1) + self.width * 2 <= self.y@.len()
        &&& self.uv_stride >= self.width * 2
        &&& self.uv_stride * (self.height / 2 - 1) + self.width * 2 <= self.uv@.len()
    }

    /// Rows begin on whole pixels.
    pub open spec fn aligned(&self) -> bool {
        self.y_stride % 2 == 0 && self.uv_stride % 4 == 0
    }

    pub open spec fn valid(&self) -> bool {
        protocol::video_size_valid(self.width, self.height) && self.even() && self.complete()
            && self.aligned()
    }

    /// What is wrong with the picture: its size first, then its planes, then how
    /// their rows lie.
    pub open spec fn complaint(&self) -> Option<Error> {
        let row = (self.width * 2) as usize;
        let y = plane_complaint(self.y@.len(), self.y_stride, row, self.height as usize);
        let uv = plane_complaint(
            self.uv@.len(),
            self.uv_stride,
            row,
            (self.height / 2) as usize,
        );
        if !protocol::video_size_valid(self.width, self.height) {
            Some(Error::VideoSize)
        } else if !self.even() {
            Some(Error::OddP010)
        } else if y is Some {
            y
        } else if uv is Some {
            uv
        } else if !self.aligned() {
            Some(Error::P010Alignment)
        } else {
            None
        }
    }

    pub fn validate(&self) -> (r: Result<(), Error>)
        ensures
            r is Ok <==> self.valid(),
            r matches Err(e) ==> self.complaint() == Some(e),
    {
        match protocol::validate_video_size(self.width, self.height) {
            Ok(()) => {},
            Err(e) => return Err(e),
        }
        if !(self.width % 2 == 0 && self.height % 2 == 0) {
            return Err(Error::OddP010);
        }
        let row: usize = self.width as usize * 2;
        match validate_plane(self.y, self.y_stride, row, self.height as usize) {
            Ok(()) => {},
            Err(e) => return Err(e),
        }
        match validate_plane(self.uv, self.uv_stride, row, self.height as usize / 2) {
            Ok(()) => {},
            Err(e) => return Err(e),
        }
        if !(self.y_stride % 2 == 0 && self.uv_stride % 4 == 0) {
            return Err(Error::P010Alignment);
        }
        Ok(())
    }
}

/// Pixels of the user interface, with straight alpha. The rectangle is in the
/// window's coordinates, the pixels may be finer.
pub struct Overlay<'a> {
    pub rect: Rect,
    pub width: u32,
    pub height: u32,
    pub stride: usize,
    pub rgba: &'a [u8],
}

impl<'a> Overlay<'a> {
    pub open spec fn sized(&self) -> bool {
        1 <= self.width <= 16384 && 1 <= self.height <= 16384
    }

    pub open spec fn complete(&self) -> bool {
        self.stride >= self.width * 4 && self.stride * (self.height - 1) + self.width * 4
            <= self.rgba@.len()
    }

    pub open spec fn valid(&self) -> bool {
        self.sized() && self.complete() && self.stride % 4 == 0
    }

    /// What is wrong with the overlay.
    pub open spec fn complaint(&self) -> Option<Error> {
        let pixels = plane_complaint(
            self.rgba@.len(),
            self.stride,
            (self.width * 4) as usize,
            self.height as usize,
        );
        if !self.sized() {
            Some(Error::OverlaySize)
        } else if pixels is Some {
            pixels
        } else if self.stride % 4 != 0 {
            Some(Error::OverlayAlignment)
        } else {
            None
        }
    }

    pub fn validate(&self) -> (r: Result<(), Error>)
        ensures
            r is Ok <==> self.valid(),
            r matches Err(e) ==> self.complaint() == Some(e),
    {
        if !(self.width > 0 && self.height > 0 && self.width <= 16384 && self.height <= 16384) {
            return Err(Error::OverlaySize);
        }
        match validate_plane(
            self.rgba,
            self.stride,
            self.width as usize * 4,
            self.height as usize,
        ) {
            Ok(()) => {},
            Err(e) => return Err(e),
        }
        if self.stride % 4 != 0 {
            return Err(Error::OverlayAlignment);
        }
        Ok(())
    }
}

/// Every overlay is valid.
pub open spec fn overlays_valid(overlays: Seq<Overlay>) -> bool {
    overlays.len() <= MAX_OVERLAYS && forall|i: int|
        0 <= i < overlays.len() ==> (#[trigger] overlays[i]).valid()
}

/// The overlay at `i` is the first that is not valid.
pub open spec fn first_invalid(overlays: Seq<Overlay>, i: int) -> bool {
    0 <= i < overlays.len() && !overlays[i].valid() && forall|j: int|
        0 <= j < i ==> (#[trigger] overlays[j]).valid()
}

/// Overlays that are not valid are refused for this reason: there are too many, or
/// it is what is wrong with the first that is not.
pub open spec fn overlays_refused(overlays: Seq<Overlay>, e: Error) -> bool {
    if overlays.len() > MAX_OVERLAYS {
        e == Error::TooManyOverlays
    } else {
        exists|i: int| #[trigger] first_invalid(overlays, i) && overlays[i].complaint() == Some(e)
    }
}

fn check_overlays(overlays: &[Overlay]) -> (r: Result<(), Error>)
    ensures
        r is Ok <==> overlays_valid(overlays@),
        r matches Err(e) ==> overlays_refused(overlays@, e),
{
    if overlays.len() > MAX_OVERLAYS {
        return Err(Error::TooManyOverlays);
    }
    let mut i: usize = 0;
    while i < overlays.len()
        invariant
            i <= overlays@.len() <= MAX_OVERLAYS,
            forall|j: int| 0 <= j < i ==> (#[trigger] overlays@[j]).valid(),
        decreases overlays@.len() - i,
    {
        match overlays[i].validate() {
            Ok(()) => {},
            Err(e) => {
                assert(first_invalid(overlays@, i as int));
                return Err(e);
            },
        }
        i += 1;
    }
    Ok(())
}

/// What became of a picture. Headroom is the bit pattern of a double-precision
/// number.
#[derive(Clone, Copy, PartialEq, Eq, Structural, Debug)]
pub enum PresentOutcome {
    Presented { headroom: u64 },
    /// Nothing is known to have been shown: there was nothing to draw on, or the
    /// display is still warming up.
    DrawableUnavailable,
}

/// The state of one presenter.
pub struct HdrPresenter {
    /// It shows surfaces in standard range, not planes in high range.
    pub sdr: bool,
    /// The sizes of the pictures that the graphics processor works on, the oldest
    /// first.
    pub in_flight: Vec<(u32, u32)>,
    /// How many surfaces it works on.
    pub surface_flights: usize,
    pub surface_cache: bool,
    /// When headroom was first wanted.
    pub edr_started: Option<u128>,
    pub has_presented_hdr: bool,
}

/// What to do before a picture is drawn.
#[derive(Clone, Copy, PartialEq, Eq, Structural, Debug)]
pub struct Reserve {
    /// Wait until the oldest picture is done.
    pub wait: bool,
    /// Its textures serve for the new one.
    pub reuse: bool,
}

/// The display's headroom is a finite number of at least one.
pub open spec fn headroom_valid(headroom: u64) -> bool {
    ONE <= headroom < INFINITY
}

/// A display without any headroom above one.
pub fn check_headroom(headroom: u64) -> (r: Result<bool, Error>)
    ensures
        r is Ok <==> headroom_valid(headroom),
        r matches Ok(warming_up) ==> (warming_up <==> headroom == ONE),
        r matches Err(e) ==> e == Error::InvalidHeadroom,
{
    if ONE <= headroom && headroom < INFINITY {
        Ok(headroom == ONE)
    } else {
        Err(Error::InvalidHeadroom)
    }
}

impl HdrPresenter {
    pub open spec fn wf(&self) -> bool {
        self.in_flight@.len() <= MAX_FLIGHTS && self.surface_flights <= MAX_FLIGHTS
    }

    /// A presenter for planes in high range.
    pub fn new() -> (r: Self)
        ensures
            r.is_new(false),
    {
        Self::new_mode(false)
    }

    /// A presenter for surfaces in standard range.
    pub fn new_sdr() -> (r: Self)
        ensures
            r.is_new(true),
    {
        Self::new_mode(true)
    }

    /// Nothing was shown yet.
    pub open spec fn is_new(&self, sdr: bool) -> bool {
        &&& self.wf()
        &&& self.sdr == sdr
        &&& self.in_flight@.len() == 0
        &&& self.surface_flights == 0
        &&& !self.surface_cache
        &&& self.edr_started is None
        &&& !self.has_presented_hdr
    }

    fn new_mode(sdr: bool) -> (r: Self)
        ensures
            r.is_new(sdr),
    {
        HdrPresenter {
            sdr,
            in_flight: Vec::new(),
            surface_flights: 0,
            surface_cache: false,
            edr_started: None,
            has_presented_hdr: false,
        }
    }

    /// Whether a picture in planes can be drawn.
    pub open spec fn presentable(
        &self,
        frame: P010Frame,
        overlays: Seq<Overlay>,
        window: (u32, u32),
        r: Result<(), Error>,
    ) -> bool {
        &&& r is Ok <==> !self.sdr && frame.valid() && window.0 > 0 && window.1 > 0
            && overlays_valid(overlays)
        &&& r matches Err(e) ==> if self.sdr {
            e == Error::NeedsHdrPresenter
        } else if !frame.valid() {
            frame.complaint() == Some(e)
        } else if window.0 == 0 || window.1 == 0 {
            e == Error::EmptyWindow
        } else {
            overlays_refused(overlays, e)
        }
    }

    /// What is checked before a picture in planes is drawn.
    pub fn check_present(&self, frame: &P010Frame, overlays: &[Overlay], window: (u32, u32)) -> (r:
        Result<(), Error>)
        ensures
            self.presentable(*frame, overlays@, window, r),
    {
        if self.sdr {
            return Err(Error::NeedsHdrPresenter);
        }
        match frame.validate() {
            Ok(()) => {},
            Err(e) => return Err(e),
        }
        if !(window.0 > 0 && window.1 > 0) {
            return Err(Error::EmptyWindow);
        }
        check_overlays(overlays)
    }

    /// Whether a surface can be drawn.
    pub open spec fn presentable_surface(
        &self,
        overlays: Seq<Overlay>,
        window: (u32, u32),
        r: Result<(), Error>,
    ) -> bool {
        &&& r is Ok <==> self.sdr && window.0 > 0 && window.1 > 0 && overlays_valid(overlays)
        &&& r matches Err(e) ==> if !self.sdr {
            e == Error::NeedsSdrPresenter
        } else if window.0 == 0 || window.1 == 0 {
            e == Error::EmptyWindow
        } else {
            overlays_refused(overlays, e)
        }
    }

    /// What is checked before a surface is drawn.
    pub fn check_present_surface(&self, overlays: &[Overlay], window: (u32, u32)) -> (r: Result<
        (),
        Error,
    >)
        ensures
            self.presentable_surface(overlays@, window, r),
    {
        if !self.sdr {
            return Err(Error::NeedsSdrPresenter);
        }
        if !(window.0 > 0 && window.1 > 0) {
            return Err(Error::EmptyWindow);
        }
        check_overlays(overlays)
    }

    /// Since when headroom has been wanted, at `now`.
    pub open spec fn started(&self, now: u128) -> u128 {
        match self.edr_started {
            Some(started) => started,
            None => now,
        }
    }

    /// What this headroom means at this time.
    pub open spec fn judged(
        self,
        headroom: u64,
        now: u128,
        after: HdrPresenter,
        r: Result<bool, Error>,
    ) -> bool {
        &&& r is Ok <==> headroom_valid(headroom) && (headroom != ONE || !self.has_presented_hdr
            && now < self.started(now) + WARM_UP)
        &&& r matches Ok(warming_up) ==> (warming_up <==> headroom == ONE)
        &&& r matches Err(e) ==> e == if headroom_valid(headroom) {
            Error::NoHeadroom
        } else {
            Error::InvalidHeadroom
        }
        &&& after.edr_started == if headroom_valid(headroom) {
            Some(self.started(now))
        } else {
            self.edr_started
        }
        &&& after == (HdrPresenter { edr_started: after.edr_started, ..self })
    }

    /// The display has this headroom at `now`. Some displays grant any only after a
    /// first picture, so they are given some time; one that had some and lost it is
    /// not.
    pub fn headroom(&mut self, headroom: u64, now: u128) -> (r: Result<bool, Error>)
        requires
            old(self).wf(),
        ensures
            final(self).wf(),
            old(self).judged(headroom, now, *final(self), r),
    {
        let warming_up = match check_headroom(headroom) {
            Ok(warming_up) => warming_up,
            Err(e) => return Err(e),
        };
        let started: u128 = match self.edr_started {
            Some(started) => started,
            None => now,
        };
        self.edr_started = Some(started);
        if warming_up && (self.has_presented_hdr || (now >= started && now - started >= WARM_UP)) {
            return Err(Error::NoHeadroom);
        }
        Ok(warming_up)
    }

    /// How room is made for a picture of this size.
    pub open spec fn reserved(
        self,
        width: u32,
        height: u32,
        after: HdrPresenter,
        r: Reserve,
    ) -> bool {
        &&& r.wait == (self.in_flight@.len() == MAX_FLIGHTS)
        &&& r.reuse == (r.wait && self.in_flight@[0] == (width, height))
        &&& after.in_flight@ == if r.wait {
            self.in_flight@.skip(1)
        } else {
            self.in_flight@
        }
        &&& after == (HdrPresenter { in_flight: after.in_flight, ..self })
    }

    /// Makes room for a picture of this size. At most three are under way, and the
    /// oldest is the one to wait for.
    pub fn reserve(&mut self, width: u32, height: u32) -> (r: Reserve)
        requires
            old(self).wf(),
        ensures
            final(self).wf(),
            final(self).in_flight@.len() < MAX_FLIGHTS,
            old(self).reserved(width, height, *final(self), r),
    {
        if self.in_flight.len() >= MAX_FLIGHTS {
            let size: (u32, u32) = self.in_flight.remove(0);
            assert(self.in_flight@ =~= old(self).in_flight@.skip(1));
            Reserve { wait: true, reuse: size.0 == width && size.1 == height }
        } else {
            Reserve { wait: false, reuse: false }
        }
    }

    /// The picture that was waited for is done, or has failed.
    pub fn completed(failed: bool) -> (r: Result<(), Error>)
        ensures
            r is Ok <==> !failed,
            r matches Err(e) ==> e == Error::GpuFailed,
    {
        if failed {
            Err(Error::GpuFailed)
        } else {
            Ok(())
        }
    }

    /// What is known once a picture was handed over.
    pub open spec fn handed_over(
        self,
        width: u32,
        height: u32,
        headroom: u64,
        after: HdrPresenter,
        r: PresentOutcome,
    ) -> bool {
        &&& after.in_flight@ == self.in_flight@.push((width, height))
        &&& r == if headroom == ONE {
            PresentOutcome::DrawableUnavailable
        } else {
            PresentOutcome::Presented { headroom }
        }
        &&& after.has_presented_hdr == (self.has_presented_hdr || r is Presented)
        &&& after == (HdrPresenter {
            in_flight: after.in_flight,
            has_presented_hdr: after.has_presented_hdr,
            ..self
        })
    }

    /// A picture of this size was handed over. What a display that is warming up
    /// showed may have been clipped, and does not count.
    pub fn submitted(&mut self, width: u32, height: u32, headroom: u64) -> (r: PresentOutcome)
        requires
            old(self).wf(),
            old(self).in_flight@.len() < MAX_FLIGHTS,
        ensures
            final(self).wf(),
            old(self).handed_over(width, height, headroom, *final(self), r),
    {
        self.in_flight.push((width, height));
        if headroom == ONE {
            return PresentOutcome::DrawableUnavailable;
        }
        self.has_presented_hdr = true;
        PresentOutcome::Presented { headroom }
    }

    /// The cache of textures for surfaces was or was not made.
    pub fn cached(&mut self, made: bool) -> (r: Result<(), Error>)
        requires
            old(self).wf(),
        ensures
            final(self).wf(),
            r is Ok <==> made,
            r matches Err(e) ==> e == Error::TextureCache,
            *final(self) == (HdrPresenter {
                surface_cache: old(self).surface_cache || made,
                ..*old(self)
            }),
    {
        if !made {
            return Err(Error::TextureCache);
        }
        self.surface_cache = true;
        Ok(())
    }

    /// How room is made for a surface.
    pub open spec fn reserved_surface(self, after: HdrPresenter, r: bool) -> bool {
        &&& r == (self.surface_flights == MAX_FLIGHTS)
        &&& after == (HdrPresenter {
            surface_flights: after.surface_flights,
            ..self
        })
        &&& after.surface_flights == if r {
            self.surface_flights - 1
        } else {
            self.surface_flights as int
        }
    }

    /// Makes room for a surface. Returns whether the oldest must be waited for.
    pub fn reserve_surface(&mut self) -> (r: bool)
        requires
            old(self).wf(),
        ensures
            final(self).wf(),
            final(self).surface_flights < MAX_FLIGHTS,
            old(self).reserved_surface(*final(self), r),
    {
        if self.surface_flights >= MAX_FLIGHTS {
            self.surface_flights = self.surface_flights - 1;
            true
        } else {
            false
        }
    }

    /// A surface was handed over.
    pub fn submitted_surface(&mut self) -> (r: PresentOutcome)
        requires
            old(self).wf(),
            old(self).surface_flights < MAX_FLIGHTS,
        ensures
            final(self).wf(),
            r == (PresentOutcome::Presented { headroom: ONE }),
            *final(self) == (HdrPresenter {
                surface_flights: (old(self).surface_flights + 1) as usize,
                ..*old(self)
            }),
    {
        self.surface_flights = self.surface_flights + 1;
        PresentOutcome::Presented { headroom: ONE }
    }
}

/// A picture counts as shown in high range only where the display had headroom.
pub proof fn shown_means_headroom(outcome: PresentOutcome, headroom: u64)
    requires
        outcome == if headroom == ONE {
            PresentOutcome::DrawableUnavailable
        } else {
            PresentOutcome::Presented { headroom }
        },
        headroom_valid(headroom),
        outcome is Presented,
    ensures
        headroom > ONE,
{
}

/// Where chroma samples sit.
#[derive(Clone, Copy, PartialEq, Eq, Structural, Debug)]
pub enum ChromaSite {
    Mpeg2,
    Jpeg,
    Other,
}

/// What is known of a surface: what was negotiated, and what the surface itself
/// says.
pub struct SurfaceInfo {
    pub width: u32,
    pub height: u32,
    pub nv12: bool,
    /// Matrix, transfer and primaries are BT.709, and the range is limited.
    pub bt709_matrix: bool,
    pub limited_range: bool,
    pub bt709_transfer: bool,
    pub bt709_primaries: bool,
    pub chroma: ChromaSite,
    pub io_surface: bool,
    pub pixel_format: u32,
    pub planes: usize,
    /// The sizes of luma and of chroma.
    pub luma: (usize, usize),
    pub chroma_size: (usize, usize),
}

impl SurfaceInfo {
    pub open spec fn even_nv12(&self) -> bool {
        self.nv12 && self.width % 2 == 0 && self.height % 2 == 0
    }

    pub open spec fn bt709(&self) -> bool {
        self.bt709_matrix && self.limited_range && self.bt709_transfer && self.bt709_primaries
    }

    /// The planes have the sizes that were negotiated.
    pub open spec fn sizes_agree(&self) -> bool {
        &&& self.luma.0 == self.width && self.luma.1 == self.height
        &&& self.chroma_size.0 == self.width / 2 && self.chroma_size.1 == self.height / 2
    }

    /// The complaint about a surface, if there is one, the first that applies.
    pub open spec fn complaint(&self) -> Option<Error> {
        if !protocol::video_size_valid(self.width, self.height) {
            Some(Error::VideoSize)
        } else if !self.even_nv12() {
            Some(Error::SurfaceFormat)
        } else if !self.bt709() {
            Some(Error::SurfaceColor)
        } else if self.chroma == ChromaSite::Other {
            Some(Error::SurfaceChroma)
        } else if !self.io_surface {
            Some(Error::SurfaceBacking)
        } else if self.pixel_format != NV12_LIMITED {
            Some(Error::SurfaceRange)
        } else if self.planes != 2 {
            Some(Error::SurfacePlanes)
        } else if !self.sizes_agree() {
            Some(Error::SurfaceSize)
        } else {
            None
        }
    }

    /// A surface is shown only where all that is known of it agrees. Returns whether
    /// chroma is shifted by half a sample, as MPEG-2 has it.
    pub fn validate(&self) -> (r: Result<bool, Error>)
        ensures
            r is Ok <==> self.complaint() is None,
            r matches Ok(shifted) ==> (shifted <==> self.chroma == ChromaSite::Mpeg2),
            r matches Err(e) ==> self.complaint() == Some(e),
    {
        match protocol::validate_video_size(self.width, self.height) {
            Ok(()) => {},
            Err(e) => return Err(e),
        }
        if !(self.nv12 && self.width % 2 == 0 && self.height % 2 == 0) {
            return Err(Error::SurfaceFormat);
        }
        if !(self.bt709_matrix && self.limited_range && self.bt709_transfer
            && self.bt709_primaries) {
            return Err(Error::SurfaceColor);
        }
        if self.chroma == ChromaSite::Other {
            return Err(Error::SurfaceChroma);
        }
        if !self.io_surface {
            return Err(Error::SurfaceBacking);
        }
        if self.pixel_format != NV12_LIMITED {
            return Err(Error::SurfaceRange);
        }
        if self.planes != 2 {
            return Err(Error::SurfacePlanes);
        }
        if !(self.luma.0 == self.width as usize && self.luma.1 == self.height as usize
            && self.chroma_size.0 == self.width as usize / 2 && self.chroma_size.1
            == self.height as usize / 2) {
            return Err(Error::SurfaceSize);
        }
        Ok(self.chroma == ChromaSite::Mpeg2)
    }
}

} // verus!
