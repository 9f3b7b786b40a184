//! Draw calls: what each primitive asks of the GPU, given the rendering
//! context's shared objects.
//!
//! Every primitive follows one protocol: enable alpha blending, bind the
//! shared vertex array and buffer, upload the shape's vertices, describe
//! the vertex attributes, set the `color` uniform where the program has one,
//! draw, and unbind. A `DrawCall` holds every choice in that protocol.
use vstd::prelude::*;
use crate::context::TContext;
use crate::geometry::{
    arc_fan_for, arc_samples, circle_fan, circle_samples, corner_named, corner_offset, Corner,
    Fan,
};

verus! {

/// How the GPU assembles the uploaded vertices into triangles.
#[derive(Clone, Copy, Debug, PartialEq, Eq, Structural)]
pub enum Topology {
    /// Each three vertices make a triangle.
    Triangles,
    /// The first vertex is shared by the triangles of each following pair.
    TriangleFan,
}

/// The vertices of a draw call, as the geometry module describes them.
#[derive(Debug)]
pub enum Shape {
    /// The six corners of a quad, positions only.
    Quad,
    /// The six corners of a quad, each followed by its texture coordinate.
    TexturedQuad,
    /// A fan around the shape's apex.
    Fan(Fan),
}

/// Where the `color` uniform's value comes from.
#[derive(Clone, Copy, Debug, PartialEq, Eq, Structural)]
pub enum Tint {
    /// The colour that the caller gave.
    Given,
    /// Opaque white, which leaves a texture's colours as they are.
    White,
}

/// A vertex attribute: `size` floats, `offset` floats into each vertex,
/// bound at `index`.
#[derive(Clone, Copy, Debug, PartialEq, Eq, Structural)]
pub struct Attribute {
    pub index: u32,
    pub size: u32,
    pub offset: u32,
}

/// One draw of a primitive.
#[derive(Debug)]
pub struct DrawCall {
    pub vertex_array: u32,
    pub vertex_buffer: u32,
    pub program: u32,
    pub shape: Shape,
    pub topology: Topology,
    /// The number of vertices drawn: all those uploaded.
    pub vertex_count: usize,
    /// The number of floats in each vertex.
    pub stride: u32,
    pub attributes: Vec<Attribute>,
    pub tint: Tint,
    /// The texture bound to unit 0, whose unit the `image` uniform names.
    pub texture: Option<u32>,
}

/// One step of a draw, as the GPU is asked to take it.
#[derive(Clone, Copy, Debug, PartialEq, Eq, Structural)]
pub enum GlCommand {
    /// Enable blending, with source alpha against one minus source alpha.
    EnableBlend,
    BindVertexArray(Option<u32>),
    BindArrayBuffer(Option<u32>),
    /// Replace the bound buffer's contents with the call's vertices, for
    /// dynamic use.
    UploadVertices,
    /// Describe and enable an attribute; `stride` floats per vertex.
    VertexAttribute { attribute: Attribute, stride: u32 },
    /// Bind a texture to texture unit 0, which is made active first.
    BindTexture(Option<u32>),
    /// Set the `color` uniform, where the program has one.
    SetColor(Tint),
    /// Point the `image` sampler at texture unit 0.
    SetImageUnit,
    DrawArrays { topology: Topology, count: usize },
}

pub open spec fn position_attribute() -> Attribute {
    Attribute { index: 0, size: 2, offset: 0 }
}

pub open spec fn texcoord_attribute() -> Attribute {
    Attribute { index: 1, size: 2, offset: 2 }
}

/// The draw call holds the context's shared objects, in order.
pub open spec fn uses_globals(d: DrawCall, g: (u32, u32, u32)) -> bool {
    d.vertex_array == g.0 && d.vertex_buffer == g.1 && d.program == g.2
}

/// A draw of plain two-float vertices in the caller's colour.
pub open spec fn is_plain(d: DrawCall) -> bool {
    &&& d.stride == 2
    &&& d.attributes@ == seq![position_attribute()]
    &&& d.tint == Tint::Given
    &&& d.texture is None
}

fn plain_attributes() -> (r: Vec<Attribute>)
    ensures
        r@ == seq![position_attribute()],
{
    let r = vec![Attribute { index: 0, size: 2, offset: 0 }];
    assert(r@ =~= seq![position_attribute()]);
    r
}

pub open spec fn attribute_commands(attributes: Seq<Attribute>, stride: u32) -> Seq<GlCommand> {
    attributes.map_values(|a: Attribute| GlCommand::VertexAttribute { attribute: a, stride })
}

/// The steps of a draw: enable blending; bind the vertex array and buffer
/// and upload the vertices; describe the attributes; bind the texture, if
/// any; set the colour, and the sampler of a texture; draw every vertex;
/// unbind the texture, buffer and vertex array. Blending stays enabled.
pub open spec fn protocol(d: DrawCall) -> Seq<GlCommand> {
    seq![
        GlCommand::EnableBlend,
        GlCommand::BindVertexArray(Some(d.vertex_array)),
        GlCommand::BindArrayBuffer(Some(d.vertex_buffer)),
        GlCommand::UploadVertices,
    ] + attribute_commands(d.attributes@, d.stride) + match d.texture {
        Some(t) => seq![
            GlCommand::BindTexture(Some(t)),
            GlCommand::SetColor(d.tint),
            GlCommand::SetImageUnit,
            GlCommand::DrawArrays { topology: d.topology, count: d.vertex_count },
            GlCommand::BindTexture(None),
        ],
        None => seq![
            GlCommand::SetColor(d.tint),
            GlCommand::DrawArrays { topology: d.topology, count: d.vertex_count },
        ],
    } + seq![GlCommand::BindArrayBuffer(None), GlCommand::BindVertexArray(None)]
}

impl DrawCall {
    /// Returns the steps in which the GPU carries out this draw.
    pub fn commands(&self) -> (r: Vec<GlCommand>)
        ensures
            r@ == protocol(*self),
    {
        let mut r: Vec<GlCommand> = Vec::new();
        r.push(GlCommand::EnableBlend);
        r.push(GlCommand::BindVertexArray(Some(self.vertex_array)));
        r.push(GlCommand::BindArrayBuffer(Some(self.vertex_buffer)));
        r.push(GlCommand::UploadVertices);
        let ghost head = r@;
        let mut i: usize = 0;
        while i < self.attributes.len()
            invariant
                i <= self.attributes@.len(),
                head == seq![
                    GlCommand::EnableBlend,
                    GlCommand::BindVertexArray(Some(self.vertex_array)),
                    GlCommand::BindArrayBuffer(Some(self.vertex_buffer)),
                    GlCommand::UploadVertices,
                ],
                r@ =~= head + attribute_commands(self.attributes@.take(i as int), self.stride),
            decreases self.attributes@.len() - i,
        {
            r.push(GlCommand::VertexAttribute { attribute: self.attributes[i], stride: self.stride });
            proof {
                assert(self.attributes@.take(i + 1) =~= self.attributes@.take(i as int).push(
                    self.attributes@[i as int],
                ));
            }
            i = i + 1;
        }
        assert(self.attributes@.take(i as int) =~= self.attributes@);
        let draw = GlCommand::DrawArrays { topology: self.topology, count: self.vertex_count };
        match self.texture {
            Some(t) => {
                r.push(GlCommand::BindTexture(Some(t)));
                r.push(GlCommand::SetColor(self.tint));
                r.push(GlCommand::SetImageUnit);
                r.push(draw);
                r.push(GlCommand::BindTexture(None));
            },
            None => {
                r.push(GlCommand::SetColor(self.tint));
                r.push(draw);
            },
        }
        r.push(GlCommand::BindArrayBuffer(None));
        r.push(GlCommand::BindVertexArray(None));
        assert(r@ =~= protocol(*self));
        r
    }
}

/// Returns the draw of a filled rectangle: six vertices, two triangles.
/// Drawing before the set-up is a defect of the caller.
pub fn draw_rect_call(ctx: &TContext) -> (d: DrawCall)
    requires
        ctx.ready(),
    ensures
        uses_globals(d, ctx.globals()),
        is_plain(d),
        d.shape is Quad,
        d.topology == Topology::Triangles,
        d.vertex_count == 6,
{
    let (vertex_array, vertex_buffer, program) = ctx.get_gl_parameters();
    DrawCall {
        vertex_array,
        vertex_buffer,
        program,
        shape: Shape::Quad,
        topology: Topology::Triangles,
        vertex_count: 6,
        stride: 2,
        attributes: plain_attributes(),
        tint: Tint::Given,
        texture: None,
    }
}

fn fan_call(g: (u32, u32, u32), fan: Fan) -> (r: DrawCall)
    requires
        fan.samples@.len() < usize::MAX,
    ensures
        uses_globals(r, g),
        is_plain(r),
        r.shape == Shape::Fan(fan),
        r.topology == Topology::TriangleFan,
        r.vertex_count == fan.vertex_count(),
{
    let vertex_count = fan.samples.len() + 1;
    DrawCall {
        vertex_array: g.0,
        vertex_buffer: g.1,
        program: g.2,
        shape: Shape::Fan(fan),
        topology: Topology::TriangleFan,
        vertex_count,
        stride: 2,
        attributes: plain_attributes(),
        tint: Tint::Given,
        texture: None,
    }
}

/// Returns the draw of a filled circle, or of a regular polygon with
/// `segments` sides: a fan of the centre and `segments + 1` samples.
pub fn draw_circle_call(ctx: &TContext, segments: u32) -> (d: DrawCall)
    requires
        ctx.ready(),
        segments + 2 <= usize::MAX,
    ensures
        uses_globals(d, ctx.globals()),
        is_plain(d),
        d.topology == Topology::TriangleFan,
        d.vertex_count == segments + 2,
        d.shape matches Shape::Fan(f) && f.offset_x == 0 && f.offset_y == 0 && f.samples@
            == circle_samples(segments as nat),
{
    fan_call(ctx.get_gl_parameters(), circle_fan(segments))
}

/// Returns the draw of the quarter circle that `corner` names, its apex on
/// the pivot; `None` where the selector names no corner, which draws nothing.
pub fn draw_quarter_circle_call(ctx: &TContext, segments: i32, corner: &str) -> (r: Option<DrawCall>)
    requires
        ctx.ready(),
    ensures
        corner_named(corner@) is None ==> r is None,
        corner_named(corner@) is Some ==> (r matches Some(d) && uses_globals(d, ctx.globals())
            && is_plain(d) && d.topology == Topology::TriangleFan && d.vertex_count == (if segments
            >= 0 {
            segments + 2
        } else {
            1
        }) && (d.shape matches Shape::Fan(f) && (f.offset_x, f.offset_y) == corner_offset(
            corner_named(corner@)->0,
        ) && f.samples@ == arc_samples(corner_named(corner@)->0, segments as int))),
{
    let g = ctx.get_gl_parameters();
    match arc_fan_for(corner, segments) {
        Some(fan) => Some(fan_call(g, fan)),
        None => None,
    }
}

/// Returns the draw of an image: a textured quad, six vertices of a position
/// and a texture coordinate each, tinted white. `texture` is the outcome of
/// loading the image; where that failed, nothing is drawn and the loader's
/// message is the error.
pub fn place_img_call(ctx: &TContext, texture: Result<u32, String>) -> (r: Result<DrawCall, String>)
    requires
        ctx.ready(),
    ensures
        texture is Err ==> r == Err::<DrawCall, String>(texture->Err_0),
        texture is Ok ==> (r matches Ok(d) && uses_globals(d, ctx.globals())
            && d.shape is TexturedQuad && d.topology == Topology::Triangles && d.vertex_count
            == 6 && d.stride == 4 && d.attributes@ == seq![position_attribute(), texcoord_attribute()]
            && d.tint == Tint::White && d.texture == Some(texture->Ok_0)),
{
    let texture = match texture {
        Ok(t) => t,
        Err(m) => return Err(m),
    };
    let (vertex_array, vertex_buffer, program) = ctx.get_gl_parameters();
    let attributes = vec![
        Attribute { index: 0, size: 2, offset: 0 },
        Attribute { index: 1, size: 2, offset: 2 },
    ];
    assert(attributes@ =~= seq![position_attribute(), texcoord_attribute()]);
    Ok(
        DrawCall {
            vertex_array,
            vertex_buffer,
            program,
            shape: Shape::TexturedQuad,
            topology: Topology::Triangles,
            vertex_count: 6,
            stride: 4,
            attributes,
            tint: Tint::White,
            texture: Some(texture),
        },
    )
}

/// A position or a length along one axis of a rounded rectangle:
/// `base + along * extent + radii * radius`, where `base` is the rectangle's
/// x (or y) for a position and 0 for a length, and `extent` is its width (or
/// height).
#[derive(Clone, Copy, Debug, PartialEq, Eq, Structural)]
pub struct Span {
    pub along: u8,
    pub radii: i8,
}

/// One step of drawing a rounded rectangle.
#[derive(Clone, Copy, Debug, PartialEq, Eq, Structural)]
pub enum RoundedStep {
    EnableBlend,
    /// A filled rectangle.
    Rect { x: Span, y: Span, width: Span, height: Span },
    /// A quarter circle of the rectangle's radius, its pivot at `(x, y)`.
    Arc { x: Span, y: Span, corner: Corner, segments: i32 },
    DisableBlend,
}

/// The number of segments of each rounded corner.
pub const CORNER_SEGMENTS: i32 = 100;

/// The value of a span on a rectangle of the given `extent` and corner
/// `radius`, from `base` (the rectangle's x or y for a position, 0 for a
/// length).
pub open spec fn span_value(s: Span, base: int, extent: int, radius: int) -> int {
    base + s.along * extent + s.radii * radius
}

/// The rectangle `(x, y, width, height)` that a step draws, for a rounded
/// rectangle at `(x, y)` of size `(w, h)` and corner radius `r`.
pub open spec fn step_rect(step: RoundedStep, x: int, y: int, w: int, h: int, r: int) -> (
    int,
    int,
    int,
    int,
) {
    match step {
        RoundedStep::Rect { x: sx, y: sy, width: sw, height: sh } => (
            span_value(sx, x, w, r),
            span_value(sy, y, h, r),
            span_value(sw, 0, w, r),
            span_value(sh, 0, h, r),
        ),
        _ => (0, 0, 0, 0),
    }
}

/// The pivot `(x, y)` of a step's quarter circle.
pub open spec fn step_pivot(step: RoundedStep, x: int, y: int, w: int, h: int, r: int) -> (int, int) {
    match step {
        RoundedStep::Arc { x: sx, y: sy, .. } => (span_value(sx, x, w, r), span_value(sy, y, h, r)),
        _ => (0, 0),
    }
}

pub open spec fn span(along: int, radii: int) -> Span {
    Span { along: along as u8, radii: radii as i8 }
}

/// A rounded rectangle is drawn under one blend bracket as the body between
/// the left and right radius, at full height; the left and the right side
/// band, each a radius wide, between the top and bottom radius; and a
/// quarter circle at each corner.
pub open spec fn rounded_rect_layout() -> Seq<RoundedStep> {
    seq![
        RoundedStep::EnableBlend,
        RoundedStep::Rect { x: span(0, 1), y: span(0, 0), width: span(1, -2), height: span(1, 0) },
        RoundedStep::Rect { x: span(0, 0), y: span(0, 1), width: span(0, 1), height: span(1, -2) },
        RoundedStep::Rect { x: span(1, -1), y: span(0, 1), width: span(0, 1), height: span(1, -2) },
        RoundedStep::Arc { x: span(0, 1), y: span(0, 1), corner: Corner::TopLeft, segments: 100 },
        RoundedStep::Arc { x: span(1, -1), y: span(0, 1), corner: Corner::TopRight, segments: 100 },
        RoundedStep::Arc { x: span(0, 1), y: span(1, -1), corner: Corner::BottomLeft, segments: 100 },
        RoundedStep::Arc {
            x: span(1, -1),
            y: span(1, -1),
            corner: Corner::BottomRight,
            segments: 100,
        },
        RoundedStep::DisableBlend,
    ]
}

/// Returns the steps that draw a rounded rectangle.
pub fn rounded_rect_steps() -> (r: Vec<RoundedStep>)
    ensures
        r@ == rounded_rect_layout(),
{
    let r = vec![
        RoundedStep::EnableBlend,
        RoundedStep::Rect {
            x: Span { along: 0, radii: 1 },
            y: Span { along: 0, radii: 0 },
            width: Span { along: 1, radii: -2 },
            height: Span { along: 1, radii: 0 },
        },
        RoundedStep::Rect {
            x: Span { along: 0, radii: 0 },
            y: Span { along: 0, radii: 1 },
            width: Span { along: 0, radii: 1 },
            height: Span { along: 1, radii: -2 },
        },
        RoundedStep::Rect {
            x: Span { along: 1, radii: -1 },
            y: Span { along: 0, radii: 1 },
            width: Span { along: 0, radii: 1 },
            height: Span { along: 1, radii: -2 },
        },
        RoundedStep::Arc {
            x: Span { along: 0, radii: 1 },
            y: Span { along: 0, radii: 1 },
            corner: Corner::TopLeft,
            segments: CORNER_SEGMENTS,
        },
        RoundedStep::Arc {
            x: Span { along: 1, radii: -1 },
            y: Span { along: 0, radii: 1 },
            corner: Corner::TopRight,
            segments: CORNER_SEGMENTS,
        },
        RoundedStep::Arc {
            x: Span { along: 0, radii: 1 },
            y: Span { along: 1, radii: -1 },
            corner: Corner::BottomLeft,
            segments: CORNER_SEGMENTS,
        },
        RoundedStep::Arc {
            x: Span { along: 1, radii: -1 },
            y: Span { along: 1, radii: -1 },
            corner: Corner::BottomRight,
            segments: CORNER_SEGMENTS,
        },
        RoundedStep::DisableBlend,
    ];
    assert(r@ =~= rounded_rect_layout());
    r
}

/// What the steps of a rounded rectangle at `(x, y)` of size `(w, h)` and
/// corner radius `r` draw: the body `(x + r, y, w - 2r, h)`, the left band
/// `(x, y + r, r, h - 2r)`, the right band `(x + w - r, y + r, r, h - 2r)`,
/// and 100-segment quarter circles pivoted at `(x + r, y + r)` top left,
/// `(x + w - r, y + r)` top right, `(x + r, y + h - r)` bottom left and
/// `(x + w - r, y + h - r)` bottom right.
pub proof fn lemma_rounded_rect_geometry(x: int, y: int, w: int, h: int, r: int)
    ensures
        ({
            let l = rounded_rect_layout();
            &&& step_rect(l[1], x, y, w, h, r) == (x + r, y, w - 2 * r, h)
            &&& step_rect(l[2], x, y, w, h, r) == (x, y + r, r, h - 2 * r)
            &&& step_rect(l[3], x, y, w, h, r) == (x + w - r, y + r, r, h - 2 * r)
            &&& step_pivot(l[4], x, y, w, h, r) == (x + r, y + r)
            &&& l[4] matches RoundedStep::Arc { corner: Corner::TopLeft, segments: 100, .. }
            &&& step_pivot(l[5], x, y, w, h, r) == (x + w - r, y + r)
            &&& l[5] matches RoundedStep::Arc { corner: Corner::TopRight, segments: 100, .. }
            &&& step_pivot(l[6], x, y, w, h, r) == (x + r, y + h - r)
            &&& l[6] matches RoundedStep::Arc { corner: Corner::BottomLeft, segments: 100, .. }
            &&& step_pivot(l[7], x, y, w, h, r) == (x + w - r, y + h - r)
            &&& l[7] matches RoundedStep::Arc { corner: Corner::BottomRight, segments: 100, .. }
        }),
{
    let l = rounded_rect_layout();
    lemma_span_value(0, 1, x, w, r);
    lemma_span_value(0, 0, y, h, r);
    lemma_span_value(1, -2, 0, w, r);
    lemma_span_value(1, 0, 0, h, r);
    lemma_span_value(0, 0, x, w, r);
    lemma_span_value(0, 1, y, h, r);
    lemma_span_value(0, 1, 0, w, r);
    lemma_span_value(1, -2, 0, h, r);
    lemma_span_value(1, -1, x, w, r);
    lemma_span_value(1, -1, y, h, r);
}

/// A span with coefficients `along` (0 or 1) and `radii` has the value
/// `base + along * extent + radii * radius`, worked out.
proof fn lemma_span_value(along: int, radii: int, base: int, extent: int, radius: int)
    requires
        0 <= along <= 1,
        -2 <= radii <= 1,
    ensures
        span_value(span(along, radii), base, extent, radius) == base + (if along == 1 {
            extent
        } else {
            0
        }) + (if radii == 1 {
            radius
        } else if radii == 0 {
            0
        } else if radii == -1 {
            -radius
        } else {
            -2 * radius
        }),
{
    let s = span(along, radii);
    assert(s.along as int == along);
    assert(s.radii as int == radii);
    assert(along * extent == (if along == 1 { extent } else { 0 })) by (nonlinear_arith)
        requires 0 <= along <= 1;
    assert(radii * radius == (if radii == 1 {
        radius
    } else if radii == 0 {
        0
    } else if radii == -1 {
        -radius
    } else {
        -2 * radius
    })) by (nonlinear_arith)
        requires -2 <= radii <= 1;
}

/// Drawing a rounded rectangle depends on nothing but its parameters: any
/// two runs produce the same steps, and so the same geometry. The steps open
/// with one blend-enable, close with one blend-disable, and in between only
/// draw, which reads the context and leaves it as it was.
pub proof fn lemma_rounded_rect_repeatable(first: Seq<RoundedStep>, second: Seq<RoundedStep>)
    requires
        first == rounded_rect_layout(),
        second == rounded_rect_layout(),
    ensures
        first == second,
        first[0] == RoundedStep::EnableBlend,
        first.last() == RoundedStep::DisableBlend,
        forall|i: int|
            0 < i < first.len() - 1 ==> (#[trigger] first[i] is Rect || first[i] is Arc),
{
}

} // verus!
