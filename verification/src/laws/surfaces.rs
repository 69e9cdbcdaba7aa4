//! Where pictures stand, and which can be shown.
use crate::error::Error;
use crate::fullscreen::Chrome;
use crate::geometry::rect_of;
use crate::hdr_present::{
    first_invalid, headroom_valid, overlays_refused, overlays_valid, plane_complaint, ChromaSite,
    HdrPresenter, Overlay, P010Frame, PresentOutcome, Reserve, SurfaceInfo,
};
use crate::protocol::video_size_valid;
use vstd::prelude::*;

verus! {

/// A rectangle is where it was asked for, unless that is out of range; no side is
/// empty.
pub proof fn rectangles_are_where_they_should_be(x: int, y: int, width: int, height: int)
    ensures
        -1_073_741_824 <= x <= 1_073_741_823 ==> rect_of(x, y, width, height).x == x,
        -1_073_741_824 <= y <= 1_073_741_823 ==> rect_of(x, y, width, height).y == y,
        1 <= width <= 1_073_741_823 ==> rect_of(x, y, width, height).width == width,
        1 <= height <= 1_073_741_823 ==> rect_of(x, y, width, height).height == height,
        -1_073_741_824 <= rect_of(x, y, width, height).x <= 1_073_741_823,
        -1_073_741_824 <= rect_of(x, y, width, height).y <= 1_073_741_823,
        1 <= rect_of(x, y, width, height).width <= 1_073_741_823,
        1 <= rect_of(x, y, width, height).height <= 1_073_741_823,
        x > 1_073_741_823 ==> rect_of(x, y, width, height).x == 1_073_741_823,
        y > 1_073_741_823 ==> rect_of(x, y, width, height).y == 1_073_741_823,
        x < -1_073_741_824 ==> rect_of(x, y, width, height).x == -1_073_741_824,
        y < -1_073_741_824 ==> rect_of(x, y, width, height).y == -1_073_741_824,
        width > 1_073_741_823 ==> rect_of(x, y, width, height).width == 1_073_741_823,
        height > 1_073_741_823 ==> rect_of(x, y, width, height).height == 1_073_741_823,
{
}

/// A point lies in a rectangle where it is neither left of it nor above it, and no
/// further from its corner than its sides reach.
pub proof fn points_of_a_rectangle(x: int, y: int, width: int, height: int, dx: int, dy: int)
    requires
        -1_000_000_000 <= x <= 1_000_000_000,
        -1_000_000_000 <= y <= 1_000_000_000,
        1 <= width <= 1_000_000_000,
        1 <= height <= 1_000_000_000,
    ensures
        rect_of(x, y, width, height).holds(x + dx, y + dy) <==> 0 <= dx < width && 0 <= dy
            < height,
{
}

/// The toolbar is 82 rows high, and the strip that reveals it four.
pub proof fn what_the_toolbar_covers(chrome: Chrome, y: i32)
    ensures
        chrome.visible ==> (chrome.blocked(y) <==> 0 <= y <= 81),
        !chrome.visible ==> (chrome.blocked(y) <==> 0 <= y <= 3),
{
}

/// A toolbar that is left alone hides after 1.2 seconds, in fullscreen only. The strip
/// reveals it; it stays while the pointer is on it or a button is held.
pub proof fn when_the_toolbar_shows(
    chrome: Chrome,
    pointer: Option<(i32, i32)>,
    buttons_down: bool,
    now: u128,
)
    ensures
        !chrome.fullscreen ==> chrome.updated(pointer, buttons_down, now).visible,
        pointer matches Some((x, y)) ==> 0 <= y < 4 ==> chrome.updated(
            pointer,
            buttons_down,
            now,
        ).visible,
        pointer matches Some((x, y)) ==> 0 <= y < 82 && chrome.visible ==> chrome.updated(
            pointer,
            buttons_down,
            now,
        ).visible,
        chrome.visible && buttons_down ==> chrome.updated(pointer, buttons_down, now).visible,
        chrome.visible && now < chrome.last_interaction + 1_200_000_000 ==> chrome.updated(
            pointer,
            buttons_down,
            now,
        ).visible,
        chrome.fullscreen && !buttons_down && (pointer matches Some((x, y)) ==> !(0 <= y < 82))
            && now >= chrome.last_interaction + 1_200_000_000 ==> !chrome.updated(
            pointer,
            buttons_down,
            now,
        ).visible,
        chrome.fullscreen && !chrome.visible && (pointer matches Some((x, y)) ==> !(0 <= y < 4))
            ==> !chrome.updated(pointer, buttons_down, now).visible,
        chrome.updated(pointer, buttons_down, now).fullscreen == chrome.fullscreen,
        chrome.fullscreen && (pointer matches Some((x, y)) && 0 <= y < 4) ==> chrome.updated(
            pointer,
            buttons_down,
            now,
        ).last_interaction == now,
        chrome.fullscreen && chrome.visible && buttons_down ==> chrome.updated(
            pointer,
            buttons_down,
            now,
        ).last_interaction == now,
        !buttons_down && (pointer matches Some((x, y)) ==> !(0 <= y < 82)) ==> chrome.updated(
            pointer,
            buttons_down,
            now,
        ).last_interaction == chrome.last_interaction,
{
}

/// What is left to the desktop lies below the toolbar, and in fullscreen it is all.
pub proof fn what_is_left_to_the_desktop(chrome: Chrome, window: (u32, u32))
    requires
        window.0 > 0,
        window.1 > 82,
    ensures
        chrome.fullscreen ==> chrome.left_over(window) == (0u32, window.0, window.1),
        !chrome.fullscreen ==> chrome.left_over(window).0 == 82 && chrome.left_over(window).1
            == window.0 && chrome.left_over(window).2 + 82 == window.1,
{
}

/// A picture that fits stands in the middle of what is left to the desktop.
pub proof fn pictures_stand_in_the_middle(chrome: Chrome, window: (u32, u32), scaled: (u32, u32))
    requires
        82 < window.0 <= 1_000_000_000,
        82 < window.1 <= 1_000_000_000,
        1 <= scaled.0 <= window.0,
        1 <= scaled.1 <= window.1,
        !chrome.fullscreen ==> scaled.1 + 82 <= window.1,
    ensures
        ({
            let place = chrome.standing(window, scaled);
            let top = if chrome.fullscreen {
                0int
            } else {
                82int
            };
            let left = place.x as int;
            let right = window.0 - (place.x + place.width);
            let above = place.y - top;
            let below = window.1 - (place.y + place.height);
            &&& place.width == scaled.0
            &&& place.height == scaled.1
            &&& 0 <= left <= right <= left + 1
            &&& 0 <= above <= below <= above + 1
        }),
{
}

/// The point under the pointer lies as far from the corner of the picture as the
/// pointer does from the picture's place.
pub proof fn the_point_under_the_pointer(
    chrome: Chrome,
    x: i32,
    y: i32,
    window: (u32, u32),
    image: (u32, u32),
    scaled: (u32, u32),
)
    ensures
        ({
            let place = chrome.standing(window, scaled);
            let inside = place.x <= x < place.x + place.width && place.y <= y < place.y
                + place.height;
            &&& chrome.pointed_at(x, y, window, image, scaled) matches Some((px, py)) ==> px
                + place.x == x && py + place.y == y && inside
            &&& inside && y >= 82 && image.0 > 0 && image.1 > 0 ==> chrome.pointed_at(
                x,
                y,
                window,
                image,
                scaled,
            ) is Some
            &&& 0 <= y < 4 || image.0 == 0 || image.1 == 0 ==> chrome.pointed_at(
                x,
                y,
                window,
                image,
                scaled,
            ) is None
        }),
{
}

// --------------------------------------------------------------------- planes

/// The last byte of every row is there.
pub open spec fn holds_rows(length: nat, stride: int, row_bytes: int, rows: int) -> bool {
    forall|i: int| 0 <= i < rows ==> #[trigger] (stride * i) + row_bytes <= length
}

/// A plane is taken exactly where it has rows, none overlaps the next, and all of them
/// are there.
pub proof fn planes_hold_their_rows(length: nat, stride: usize, row_bytes: usize, rows: usize)
    ensures
        plane_complaint(length, stride, row_bytes, rows) is None <==> rows > 0 && row_bytes
            <= stride && holds_rows(length, stride as int, row_bytes as int, rows as int),
        rows == 0 || row_bytes > stride ==> plane_complaint(length, stride, row_bytes, rows) == Some(
            Error::StrideTooSmall,
        ),
        rows > 0 && row_bytes <= stride && !holds_rows(
            length,
            stride as int,
            row_bytes as int,
            rows as int,
        ) ==> plane_complaint(length, stride, row_bytes, rows) == Some(Error::TruncatedPlane),
{
    if rows > 0 && row_bytes <= stride {
        let last = stride * (rows - 1);
        if last + row_bytes <= length {
            assert forall|i: int| 0 <= i < rows implies #[trigger] (stride * i) + row_bytes
                <= length by {
                assert(stride * i <= last) by (nonlinear_arith)
                    requires
                        i <= rows - 1,
                        last == stride * (rows - 1),
                        stride >= 0,
                ;
            }
        } else {
            assert(!(stride * (rows - 1) + row_bytes <= length));
            assert(0 <= rows - 1 < rows);
        }
    }
}

/// What is wrong with a picture is said of the first that is.
pub proof fn why_a_picture_is_refused(frame: P010Frame)
    ensures
        !video_size_valid(frame.width, frame.height) ==> frame.complaint() == Some(
            Error::VideoSize,
        ),
        video_size_valid(frame.width, frame.height) && (frame.width % 2 != 0 || frame.height % 2
            != 0) ==> frame.complaint() == Some(Error::OddP010),
        frame.complaint() is None ==> frame.y_stride % 2 == 0 && frame.uv_stride % 4 == 0
            && frame.width % 2 == 0 && frame.height % 2 == 0,
        frame.valid() ==> frame.width % 2 == 0 && frame.height % 2 == 0 && frame.y_stride % 2 == 0
            && frame.uv_stride % 4 == 0 && 2 * frame.width <= frame.y_stride && 2 * frame.width
            <= frame.uv_stride,
        video_size_valid(frame.width, frame.height) && frame.width % 2 == 0 && frame.height % 2
            == 0 ==> {
            let row = 2 * frame.width;
            let y_rows = frame.y_stride * (frame.height - 1) + row;
            let uv_rows = frame.uv_stride * (frame.height / 2 - 1) + row;
            &&& frame.y_stride < row ==> frame.complaint() == Some(Error::StrideTooSmall)
            &&& frame.y_stride >= row && y_rows > frame.y@.len() ==> frame.complaint() == Some(
                Error::TruncatedPlane,
            )
            &&& frame.y_stride >= row && y_rows <= frame.y@.len() && frame.uv_stride < row
                ==> frame.complaint() == Some(Error::StrideTooSmall)
            &&& frame.y_stride >= row && y_rows <= frame.y@.len() && frame.uv_stride >= row
                && uv_rows > frame.uv@.len() ==> frame.complaint() == Some(Error::TruncatedPlane)
            &&& frame.y_stride >= row && y_rows <= frame.y@.len() && frame.uv_stride >= row
                && uv_rows <= frame.uv@.len() ==> frame.complaint() == if frame.y_stride % 2 == 0
                && frame.uv_stride % 4 == 0 {
                None
            } else {
                Some(Error::P010Alignment)
            }
        },
        frame.valid() <==> frame.complaint() is None,
{
}

/// There are at most sixteen overlays, of at most 16384 pixels a side, in rows of whole
/// pixels.
pub proof fn overlays_are_bounded(overlays: Seq<Overlay>, i: int)
    requires
        0 <= i < overlays.len(),
    ensures
        overlays_valid(overlays) ==> {
            &&& overlays.len() <= 16
            &&& 1 <= overlays[i].width <= 16384
            &&& 1 <= overlays[i].height <= 16384
            &&& overlays[i].stride % 4 == 0
            &&& overlays[i].stride >= 4 * overlays[i].width
            &&& overlays[i].stride * (overlays[i].height - 1) + 4 * overlays[i].width
                <= overlays[i].rgba@.len()
        },
        overlays_valid(overlays) ==> overlays_valid(overlays.take(i)),
        overlays[i].width == 0 || overlays[i].height == 0 || overlays[i].width > 16384
            || overlays[i].height > 16384 ==> overlays[i].complaint() == Some(Error::OverlaySize),
{
    if overlays_valid(overlays) {
        assert(overlays[i].valid());
        assert forall|j: int| 0 <= j < overlays.take(i).len() implies (
        #[trigger] overlays.take(i)[j]).valid() by {
            assert(overlays[j].valid());
        }
    }
}

/// A headroom is the bits of a finite number of one or more.
pub proof fn headrooms_are_finite(bits: u64)
    ensures
        headroom_valid(bits) <==> 0x3FF0_0000_0000_0000 <= bits < 0x7FF0_0000_0000_0000,
{
}

/// A surface is shown exactly where everything about it is as it was negotiated; what is
/// wrong is said of the first that is.
pub proof fn what_makes_a_surface(s: SurfaceInfo)
    ensures
        s.complaint() is None <==> {
            &&& video_size_valid(s.width, s.height)
            &&& s.nv12
            &&& s.width % 2 == 0 && s.height % 2 == 0
            &&& s.bt709_matrix && s.bt709_transfer && s.bt709_primaries && s.limited_range
            &&& s.chroma == ChromaSite::Mpeg2 || s.chroma == ChromaSite::Jpeg
            &&& s.io_surface
            &&& s.pixel_format == 0x3432_3076
            &&& s.planes == 2
            &&& s.luma.0 == s.width && s.luma.1 == s.height
            &&& 2 * s.chroma_size.0 == s.width && 2 * s.chroma_size.1 == s.height
        },
        s.complaint() == Some(Error::SurfaceChroma) ==> s.chroma == ChromaSite::Other,
        s.complaint() == Some(Error::SurfaceBacking) ==> !s.io_surface,
        s.complaint() == Some(Error::SurfaceRange) ==> s.pixel_format != 0x3432_3076,
        s.complaint() == Some(Error::SurfacePlanes) ==> s.planes != 2,
        s.complaint() == Some(Error::VideoSize) ==> !video_size_valid(s.width, s.height),
        s.complaint() == Some(Error::SurfaceColor) ==> !(s.bt709_matrix && s.bt709_transfer
            && s.bt709_primaries && s.limited_range),
        s.complaint() == Some(Error::SurfaceFormat) ==> !(s.nv12 && s.width % 2 == 0 && s.height % 2
            == 0),
{
}

/// A display without headroom is given three seconds from when some was first wanted,
/// unless it had some before.
pub proof fn displays_may_warm_up(
    before: HdrPresenter,
    headroom: u64,
    now: u128,
    after: HdrPresenter,
    r: Result<bool, Error>,
)
    requires
        before.judged(headroom, now, after, r),
    ensures
        0x3FF0_0000_0000_0000 < headroom < 0x7FF0_0000_0000_0000 ==> r == Ok::<bool, Error>(false),
        headroom < 0x3FF0_0000_0000_0000 || headroom >= 0x7FF0_0000_0000_0000 ==> r == Err::<
            bool,
            Error,
        >(Error::InvalidHeadroom) && after == before,
        headroom == 0x3FF0_0000_0000_0000 && before.has_presented_hdr ==> r == Err::<bool, Error>(
            Error::NoHeadroom,
        ),
        headroom == 0x3FF0_0000_0000_0000 && !before.has_presented_hdr ==> {
            &&& before.edr_started is None ==> r == Ok::<bool, Error>(true) && after.edr_started
                == Some(now)
            &&& before.edr_started matches Some(since) ==> after.edr_started == Some(since) && (
            now < since + 3_000_000_000 ==> r == Ok::<bool, Error>(true)) && (now >= since
                + 3_000_000_000 ==> r == Err::<bool, Error>(Error::NoHeadroom))
        },
        after.has_presented_hdr == before.has_presented_hdr && after.in_flight == before.in_flight,
{
}

/// Three pictures are under way at most; the oldest is waited for, and its textures serve
/// again where the sizes are the same.
pub proof fn three_pictures_at_most(
    before: HdrPresenter,
    width: u32,
    height: u32,
    after: HdrPresenter,
    r: Reserve,
)
    requires
        before.wf(),
        before.reserved(width, height, after, r),
    ensures
        before.in_flight@.len() < 3 ==> !r.wait && !r.reuse && after.in_flight@ == before.in_flight@,
        before.in_flight@.len() == 3 ==> {
            &&& r.wait
            &&& after.in_flight@ == seq![before.in_flight@[1], before.in_flight@[2]]
            &&& r.reuse <==> before.in_flight@[0].0 == width && before.in_flight@[0].1 == height
        },
{
    if before.in_flight@.len() == 3 {
        assert(after.in_flight@ =~= seq![before.in_flight@[1], before.in_flight@[2]]);
    }
}

/// A picture counts as shown in high range where the display had headroom, and from then
/// on it had some.
pub proof fn pictures_that_were_shown(
    before: HdrPresenter,
    width: u32,
    height: u32,
    headroom: u64,
    after: HdrPresenter,
    r: PresentOutcome,
)
    requires
        before.handed_over(width, height, headroom, after, r),
    ensures
        after.in_flight@ == before.in_flight@.push((width, height)),
        headroom == 0x3FF0_0000_0000_0000 ==> r is DrawableUnavailable && after.has_presented_hdr
            == before.has_presented_hdr,
        headroom != 0x3FF0_0000_0000_0000 ==> r == (PresentOutcome::Presented { headroom })
            && after.has_presented_hdr,
{
}

/// Overlays are refused for their number, or for the first that is wrong.
pub proof fn why_overlays_are_refused(overlays: Seq<Overlay>, e: Error, i: int)
    requires
        overlays_refused(overlays, e),
    ensures
        overlays.len() > 16 ==> e == Error::TooManyOverlays,
        overlays.len() <= 16 && 0 <= i < overlays.len() && !overlays[i].valid() && (forall|j: int|
            0 <= j < i ==> (#[trigger] overlays[j]).valid()) ==> overlays[i].complaint() == Some(e),
{
    if overlays.len() <= 16 && 0 <= i < overlays.len() && !overlays[i].valid() && (forall|j: int|
        0 <= j < i ==> (#[trigger] overlays[j]).valid()) {
        let k = choose|k: int| #[trigger]
            first_invalid(overlays, k) && overlays[k].complaint() == Some(e);
        assert(first_invalid(overlays, k));
        assert(k == i) by {
            if k < i {
                assert(overlays[k].valid());
            } else if i < k {
                assert(overlays[i].valid());
            }
        }
    }
}

/// Three surfaces are under way at most.
pub proof fn three_surfaces_at_most(before: HdrPresenter, after: HdrPresenter, r: bool)
    requires
        before.wf(),
        before.reserved_surface(after, r),
    ensures
        before.surface_flights == 3 ==> r && after.surface_flights == 2,
        before.surface_flights < 3 ==> !r && after.surface_flights == before.surface_flights,
        after.in_flight == before.in_flight,
{
}

/// Planes are for a presenter in high range and surfaces for one in standard range, and both
/// for a window that has some size.
pub proof fn what_can_be_presented(
    presenter: HdrPresenter,
    frame: P010Frame,
    overlays: Seq<Overlay>,
    window: (u32, u32),
    r: Result<(), Error>,
)
    ensures
        presenter.presentable(frame, overlays, window, r) ==> {
            &&& r is Ok <==> !presenter.sdr && frame.valid() && window.0 > 0 && window.1 > 0
                && overlays_valid(overlays)
            &&& presenter.sdr ==> r == Err::<(), Error>(Error::NeedsHdrPresenter)
            &&& !presenter.sdr && frame.valid() && (window.0 == 0 || window.1 == 0) ==> r == Err::<
                (),
                Error,
            >(Error::EmptyWindow)
        },
        presenter.presentable_surface(overlays, window, r) ==> {
            &&& r is Ok <==> presenter.sdr && window.0 > 0 && window.1 > 0 && overlays_valid(
                overlays,
            )
            &&& !presenter.sdr ==> r == Err::<(), Error>(Error::NeedsSdrPresenter)
            &&& presenter.sdr && (window.0 == 0 || window.1 == 0) ==> r == Err::<(), Error>(
                Error::EmptyWindow,
            )
        },
{
}

/// A presenter begins with nothing shown, in its range.
pub proof fn a_presenter_begins(presenter: HdrPresenter, sdr: bool)
    requires
        presenter.is_new(sdr),
    ensures
        presenter.sdr == sdr,
        presenter.in_flight@.len() == 0 && presenter.surface_flights == 0,
        !presenter.has_presented_hdr && presenter.edr_started is None && !presenter.surface_cache,
{
}

} // verus!
