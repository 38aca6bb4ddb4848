//! Mapping compositor cursor samples into global compositor coordinates.
//!
//! A cursor position arrives in the pixels of an output's capture buffer or
//! of a ScreenCast video stream. The compositor lays outputs out in logical
//! coordinates, which may be scaled (also fractionally) and rotated against
//! those pixels. The mapping here is exact: each axis of a global position is
//! `origin + offset * numerator / denominator`, kept as integers; turning it
//! into a floating-point coordinate is left to the caller.
use vstd::prelude::*;

verus! {

/// How an output's content is rotated and flipped against its buffer.
#[derive(Debug, Clone, Copy, PartialEq, Eq, Structural)]
pub enum OutputTransform {
    Normal,
    Rotate90,
    Rotate180,
    Rotate270,
    Flipped,
    Flipped90,
    Flipped180,
    Flipped270,
}

impl OutputTransform {
    /// Whether the transform turns the buffer by a quarter turn, so that
    /// its width runs along the output's height.
    pub open spec fn swaps_axes(self) -> bool {
        ||| self is Rotate90
        ||| self is Rotate270
        ||| self is Flipped90
        ||| self is Flipped270
    }
}

/// The buffer size `(width, height)` as laid out on the output.
pub open spec fn spec_transformed_buffer_size(width: u32, height: u32, transform: OutputTransform) -> (u32, u32) {
    if transform.swaps_axes() {
        (height, width)
    } else {
        (width, height)
    }
}

/// The buffer size `(width, height)` as laid out on the output: quarter
/// turns swap the axes.
pub fn transformed_buffer_size(width: u32, height: u32, transform: OutputTransform) -> (r: (u32, u32))
    ensures
        r == spec_transformed_buffer_size(width, height, transform),
        transform is Normal || transform is Rotate180 || transform is Flipped || transform is Flipped180
            ==> r == (width, height),
        transform is Rotate90 || transform is Rotate270 || transform is Flipped90 || transform is Flipped270
            ==> r == (height, width),
{
    match transform {
        OutputTransform::Rotate90
        | OutputTransform::Rotate270
        | OutputTransform::Flipped90
        | OutputTransform::Flipped270 => (height, width),
        _ => (width, height),
    }
}

/// The factor `numerator / denominator` from source pixels to logical
/// coordinates along one axis.
#[derive(Debug, Clone, Copy, PartialEq, Eq, Structural)]
pub struct Scale {
    pub numerator: i64,
    pub denominator: i64,
}

impl Scale {
    /// The factor one.
    pub open spec fn unit() -> Scale {
        Scale { numerator: 1, denominator: 1 }
    }
}

/// One axis of a global position: `origin + offset * scale`.
#[derive(Debug, Clone, Copy, PartialEq, Eq, Structural)]
pub struct AxisPosition {
    /// Where the source starts on this axis, in logical coordinates.
    pub origin: i32,
    /// The cursor position within the source, in source pixels.
    pub offset: i32,
    /// Source pixels to logical coordinates.
    pub scale: Scale,
}

impl AxisPosition {
    /// The coordinate times the scale's denominator:
    /// `(origin + offset * numerator / denominator) * denominator`.
    pub open spec fn scaled_value(self) -> int {
        self.origin * self.scale.denominator + self.offset * self.scale.numerator
    }
}

/// A global pointer position in compositor coordinates.
#[derive(Debug, Clone, Copy, PartialEq, Eq, Structural)]
pub struct GlobalPosition {
    pub x: AxisPosition,
    pub y: AxisPosition,
}

/// The per-axis factors of an output: logical size over the buffer size as
/// laid out on the output, when both are known and positive; one otherwise.
pub open spec fn output_scale(
    logical_size: Option<(i32, i32)>,
    buffer_size: Option<(u32, u32)>,
    transform: OutputTransform,
) -> (Scale, Scale) {
    if let (Some((lw, lh)), Some((bw, bh))) = (logical_size, buffer_size) {
        if lw > 0 && lh > 0 && bw > 0 && bh > 0 {
            let (tw, th) = spec_transformed_buffer_size(bw, bh, transform);
            (
                Scale { numerator: lw as i64, denominator: tw as i64 },
                Scale { numerator: lh as i64, denominator: th as i64 },
            )
        } else {
            (Scale::unit(), Scale::unit())
        }
    } else {
        (Scale::unit(), Scale::unit())
    }
}

/// The global position of cursor `(x, y)` in the capture buffer of an
/// output starting at `origin`.
pub open spec fn spec_map_cursor_coordinates(
    origin: (i32, i32),
    logical_size: Option<(i32, i32)>,
    buffer_size: Option<(u32, u32)>,
    transform: OutputTransform,
    x: i32,
    y: i32,
) -> GlobalPosition {
    let (sx, sy) = output_scale(logical_size, buffer_size, transform);
    GlobalPosition {
        x: AxisPosition { origin: origin.0, offset: x, scale: sx },
        y: AxisPosition { origin: origin.1, offset: y, scale: sy },
    }
}

/// Map a cursor position `(x, y)` in an output's capture buffer into global
/// compositor coordinates: the output's logical size over its buffer size
/// (as laid out on the output) scales each axis, when both sizes are known
/// and positive; until then the position is only translated by `origin`.
pub fn map_cursor_coordinates(
    origin: (i32, i32),
    logical_size: Option<(i32, i32)>,
    buffer_size: Option<(u32, u32)>,
    transform: OutputTransform,
    x: i32,
    y: i32,
) -> (r: GlobalPosition)
    ensures
        r == spec_map_cursor_coordinates(origin, logical_size, buffer_size, transform, x, y),
        r.x.scale.denominator > 0,
        r.y.scale.denominator > 0,
{
    let (scale_x, scale_y) = match (logical_size, buffer_size) {
        (Some((logical_width, logical_height)), Some((buffer_width, buffer_height))) => {
            if logical_width > 0 && logical_height > 0 && buffer_width > 0 && buffer_height > 0 {
                let (transformed_width, transformed_height) = transformed_buffer_size(
                    buffer_width,
                    buffer_height,
                    transform,
                );
                (
                    Scale { numerator: logical_width as i64, denominator: transformed_width as i64 },
                    Scale { numerator: logical_height as i64, denominator: transformed_height as i64 },
                )
            } else {
                (Scale { numerator: 1, denominator: 1 }, Scale { numerator: 1, denominator: 1 })
            }
        },
        _ => (Scale { numerator: 1, denominator: 1 }, Scale { numerator: 1, denominator: 1 }),
    };
    GlobalPosition {
        x: AxisPosition { origin: origin.0, offset: x, scale: scale_x },
        y: AxisPosition { origin: origin.1, offset: y, scale: scale_y },
    }
}

/// What is known about the geometry of one output: its position from
/// `wl_output` and from xdg-output, its logical size, the size of its
/// capture buffer and its transform.
#[derive(Debug, Clone, Copy, PartialEq, Eq)]
pub struct OutputGeometry {
    pub wl_origin: Option<(i32, i32)>,
    pub logical_origin: Option<(i32, i32)>,
    pub logical_size: Option<(i32, i32)>,
    pub buffer_size: Option<(u32, u32)>,
    pub transform: OutputTransform,
}

impl OutputGeometry {
    /// An output of which nothing is known yet.
    pub fn new() -> (r: OutputGeometry)
        ensures
            r.wl_origin is None,
            r.logical_origin is None,
            r.logical_size is None,
            r.buffer_size is None,
            r.transform == OutputTransform::Normal,
    {
        OutputGeometry {
            wl_origin: None,
            logical_origin: None,
            logical_size: None,
            buffer_size: None,
            transform: OutputTransform::Normal,
        }
    }

    /// Where the output starts: its xdg-output logical position, else its
    /// `wl_output` position, else the desktop origin.
    pub open spec fn spec_origin(self) -> (i32, i32) {
        match self.logical_origin {
            Some(origin) => origin,
            None => match self.wl_origin {
                Some(origin) => origin,
                None => (0, 0),
            },
        }
    }

    /// Where the output starts: its xdg-output logical position, else its
    /// `wl_output` position, else the desktop origin.
    pub fn origin(&self) -> (r: (i32, i32))
        ensures
            r == self.spec_origin(),
    {
        match self.logical_origin {
            Some(origin) => origin,
            None => match self.wl_origin {
                Some(origin) => origin,
                None => (0, 0),
            },
        }
    }

    /// The global position of a cursor at `(x, y)` in this output's capture
    /// buffer.
    pub fn map_cursor(&self, x: i32, y: i32) -> (r: GlobalPosition)
        ensures
            r == spec_map_cursor_coordinates(
                self.spec_origin(),
                self.logical_size,
                self.buffer_size,
                self.transform,
                x,
                y,
            ),
            r.x.scale.denominator > 0,
            r.y.scale.denominator > 0,
    {
        map_cursor_coordinates(
            self.origin(),
            self.logical_size,
            self.buffer_size,
            self.transform,
            x,
            y,
        )
    }
}

/// Where a ScreenCast stream lies on the desktop, as the portal reported it.
#[derive(Debug, Clone, Copy, PartialEq, Eq)]
pub struct StreamGeometry {
    /// The stream's position in compositor coordinates.
    pub origin: (i32, i32),
    /// The stream's size in compositor coordinates, when reported.
    pub compositor_size: Option<(i32, i32)>,
}

/// The per-axis factors of a stream whose video is `width` by `height`
/// pixels: its compositor size over its video size, when both are known and
/// the video size is positive; one otherwise.
pub open spec fn stream_scale(compositor_size: Option<(i32, i32)>, width: int, height: int) -> (Scale, Scale) {
    match compositor_size {
        Some((lw, lh)) => if width > 0 && height > 0 {
            (
                Scale { numerator: lw as i64, denominator: width as i64 },
                Scale { numerator: lh as i64, denominator: height as i64 },
            )
        } else {
            (Scale::unit(), Scale::unit())
        },
        None => (Scale::unit(), Scale::unit()),
    }
}

impl StreamGeometry {
    /// A stream at `position` (the desktop origin when not reported) with the
    /// given compositor size.
    pub fn new(position: Option<(i32, i32)>, compositor_size: Option<(i32, i32)>) -> (r: StreamGeometry)
        ensures
            r.origin == (match position {
                Some(p) => p,
                None => (0, 0),
            }),
            r.compositor_size == compositor_size,
    {
        let origin = match position {
            Some(p) => p,
            None => (0, 0),
        };
        StreamGeometry { origin, compositor_size }
    }

    /// Whether a cursor sample at `(x, y)` in a video of `width` by `height`
    /// pixels is dropped: the video size does not fit `i32`, or the video
    /// size is known (positive) and the cursor lies outside it.
    pub open spec fn rejects(width: u32, height: u32, x: i32, y: i32) -> bool {
        ||| width > i32::MAX
        ||| height > i32::MAX
        ||| (width > 0 && height > 0 && (x < 0 || y < 0 || x >= width || y >= height))
    }

    /// The global position of a cursor at `(x, y)` in this stream's video of
    /// `video_width` by `video_height` pixels, unless the sample is dropped
    /// (see `rejects`). The compositor size over the video size scales each
    /// axis when both are known; otherwise the position is only translated.
    pub fn global_cursor(&self, video_width: u32, video_height: u32, x: i32, y: i32) -> (r: Option<GlobalPosition>)
        ensures
            r is None <==> Self::rejects(video_width, video_height, x, y),
            r matches Some(p) ==> {
                let (sx, sy) = stream_scale(self.compositor_size, video_width as int, video_height as int);
                &&& p.x == AxisPosition { origin: self.origin.0, offset: x, scale: sx }
                &&& p.y == AxisPosition { origin: self.origin.1, offset: y, scale: sy }
                &&& p.x.scale.denominator > 0
                &&& p.y.scale.denominator > 0
            },
    {
        if video_width > i32::MAX as u32 || video_height > i32::MAX as u32 {
            return None;
        }
        let width: i32 = video_width as i32;
        let height: i32 = video_height as i32;
        if width > 0 && height > 0 && (x < 0 || y < 0 || x >= width || y >= height) {
            return None;
        }
        let (scale_x, scale_y) = match self.compositor_size {
            Some((logical_width, logical_height)) => if width > 0 && height > 0 {
                (
                    Scale { numerator: logical_width as i64, denominator: width as i64 },
                    Scale { numerator: logical_height as i64, denominator: height as i64 },
                )
            } else {
                (Scale { numerator: 1, denominator: 1 }, Scale { numerator: 1, denominator: 1 })
            },
            None => (Scale { numerator: 1, denominator: 1 }, Scale { numerator: 1, denominator: 1 }),
        };
        Some(
            GlobalPosition {
                x: AxisPosition { origin: self.origin.0, offset: x, scale: scale_x },
                y: AxisPosition { origin: self.origin.1, offset: y, scale: scale_y },
            },
        )
    }
}

/// Half turns and flips keep the buffer's axes; quarter turns swap them,
/// whatever the buffer's shape.
pub proof fn law_transform_axes(width: u32, height: u32)
    ensures
        spec_transformed_buffer_size(width, height, OutputTransform::Normal) == (width, height),
        spec_transformed_buffer_size(width, height, OutputTransform::Rotate180) == (width, height),
        spec_transformed_buffer_size(width, height, OutputTransform::Flipped) == (width, height),
        spec_transformed_buffer_size(width, height, OutputTransform::Flipped180) == (width, height),
        spec_transformed_buffer_size(width, height, OutputTransform::Rotate90) == (height, width),
        spec_transformed_buffer_size(width, height, OutputTransform::Rotate270) == (height, width),
        spec_transformed_buffer_size(width, height, OutputTransform::Flipped90) == (height, width),
        spec_transformed_buffer_size(width, height, OutputTransform::Flipped270) == (height, width),
{
}

/// With both sizes known and positive, each axis is scaled by the logical
/// size over the buffer size along that axis as laid out on the output: the
/// buffer's own width and height for half turns and flips, its height and
/// width for quarter turns.
pub proof fn law_scale_follows_layout(
    origin: (i32, i32),
    logical_width: i32,
    logical_height: i32,
    buffer_width: u32,
    buffer_height: u32,
    transform: OutputTransform,
    x: i32,
    y: i32,
)
    requires
        logical_width > 0,
        logical_height > 0,
        buffer_width > 0,
        buffer_height > 0,
    ensures
        ({
            let p = spec_map_cursor_coordinates(
                origin,
                Some((logical_width, logical_height)),
                Some((buffer_width, buffer_height)),
                transform,
                x,
                y,
            );
            &&& p.x.scale.numerator == logical_width
            &&& p.y.scale.numerator == logical_height
            &&& !(transform is Rotate90 || transform is Rotate270 || transform is Flipped90
                || transform is Flipped270) ==> p.x.scale.denominator == buffer_width
                && p.y.scale.denominator == buffer_height
            &&& (transform is Rotate90 || transform is Rotate270 || transform is Flipped90
                || transform is Flipped270) ==> p.x.scale.denominator == buffer_height
                && p.y.scale.denominator == buffer_width
        }),
{
}

/// Until the buffer size is known, a cursor position is only translated by
/// the output's origin.
pub proof fn law_unscaled_until_buffer_size_known(
    origin: (i32, i32),
    logical_size: Option<(i32, i32)>,
    transform: OutputTransform,
    x: i32,
    y: i32,
)
    ensures
        spec_map_cursor_coordinates(origin, logical_size, None, transform, x, y).x.scaled_value()
            == origin.0 + x,
        spec_map_cursor_coordinates(origin, logical_size, None, transform, x, y).y.scaled_value()
            == origin.1 + y,
{
    let p = spec_map_cursor_coordinates(origin, logical_size, None, transform, x, y);
    assert(p.x.scaled_value() == origin.0 + x) by (nonlinear_arith)
        requires
            p.x.origin == origin.0,
            p.x.offset == x,
            p.x.scale == Scale::unit(),
    ;
    assert(p.y.scaled_value() == origin.1 + y) by (nonlinear_arith)
        requires
            p.y.origin == origin.1,
            p.y.offset == y,
            p.y.scale == Scale::unit(),
    ;
}

/// The far corner of the capture buffer, as laid out on the output, maps to
/// the far corner of the output's logical area: the whole buffer covers
/// exactly `[origin, origin + logical size]` on each axis, whatever the
/// scale and rotation.
pub proof fn law_buffer_spans_logical_area(
    origin: (i32, i32),
    logical_width: i32,
    logical_height: i32,
    buffer_width: u32,
    buffer_height: u32,
    transform: OutputTransform,
)
    requires
        logical_width > 0,
        logical_height > 0,
        0 < buffer_width <= i32::MAX,
        0 < buffer_height <= i32::MAX,
    ensures
        ({
            let (tw, th) = spec_transformed_buffer_size(buffer_width, buffer_height, transform);
            let p = spec_map_cursor_coordinates(
                origin,
                Some((logical_width, logical_height)),
                Some((buffer_width, buffer_height)),
                transform,
                tw as i32,
                th as i32,
            );
            &&& p.x.scaled_value() == (origin.0 + logical_width) * p.x.scale.denominator
            &&& p.y.scaled_value() == (origin.1 + logical_height) * p.y.scale.denominator
            &&& p.x.scale.denominator == tw
            &&& p.y.scale.denominator == th
        }),
{
    let (tw, th) = spec_transformed_buffer_size(buffer_width, buffer_height, transform);
    let p = spec_map_cursor_coordinates(
        origin,
        Some((logical_width, logical_height)),
        Some((buffer_width, buffer_height)),
        transform,
        tw as i32,
        th as i32,
    );
    assert(p.x.scaled_value() == (origin.0 + logical_width) * p.x.scale.denominator) by (nonlinear_arith)
        requires
            p.x.origin == origin.0,
            p.x.offset == tw,
            p.x.scale.numerator == logical_width,
            p.x.scale.denominator == tw,
    ;
    assert(p.y.scaled_value() == (origin.1 + logical_height) * p.y.scale.denominator) by (nonlinear_arith)
        requires
            p.y.origin == origin.1,
            p.y.offset == th,
            p.y.scale.numerator == logical_height,
            p.y.scale.denominator == th,
    ;
}

/// Scaling never reorders positions: a cursor further along an axis of the
/// same source maps to a coordinate no smaller, for any non-negative scale.
pub proof fn law_mapping_monotonic(a: AxisPosition, b: AxisPosition)
    requires
        a.origin == b.origin,
        a.scale == b.scale,
        a.offset <= b.offset,
        a.scale.numerator >= 0,
        a.scale.denominator > 0,
    ensures
        a.scaled_value() <= b.scaled_value(),
{
    assert(a.offset * a.scale.numerator <= b.offset * a.scale.numerator) by (nonlinear_arith)
        requires
            a.offset <= b.offset,
            a.scale.numerator >= 0,
    ;
}

} // verus!
