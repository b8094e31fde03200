use anathema_widgets::attribs::CanvasAttribs;
use anathema_widgets::element::Display;
use anathema_widgets::element::Element;
use anathema_widgets::element::Widget;
use anathema_widgets::element::WidgetContainer;
use anathema_widgets::element::WidgetKind;
use anathema_widgets::geometry::LocalPos;
use anathema_widgets::geometry::Pos;
use anathema_widgets::geometry::Region;
use anathema_widgets::geometry::Size;
use anathema_widgets::paint::PaintCtx;
use anathema_widgets::paint::PaintFilter;
use anathema_widgets::paint::FilterOutcome;
use anathema_widgets::testing::TestSurface;

#[test]
fn clipped_glyph_is_skipped_but_advances() {
    let surface = TestSurface::new(10, 10);
    let clip = Region::new(Pos::new(0, 0), Pos::new(1, 1));
    let ctx = PaintCtx::new(surface, Some(clip));
    let mut sized = ctx.into_sized(Size::new(10, 10), Pos::new(0, 0));
    let attribs = CanvasAttribs::new();
    let next = sized.place_glyph('a', &attribs, LocalPos::new(5, 0));
    assert_eq!(next, Some(LocalPos::new(6, 0)));
    assert_eq!(sized.surface.cell(5, 0), ' ');
    let next = sized.place_glyph('b', &attribs, LocalPos::new(0, 0));
    assert_eq!(next, Some(LocalPos::new(1, 0)));
    assert_eq!(sized.surface.cell(0, 0), 'b');
}

#[test]
fn wide_glyph_advances_two_columns() {
    let surface = TestSurface::new(10, 10);
    let ctx = PaintCtx::new(surface, None);
    let mut sized = ctx.into_sized(Size::new(10, 10), Pos::new(0, 0));
    let attribs = CanvasAttribs::new();
    let next = sized.place_glyph('\u{732B}', &attribs, LocalPos::new(0, 0));
    assert_eq!(next, Some(LocalPos::new(2, 0)));
    assert_eq!(sized.surface.cell(0, 0), '\u{732B}');
}

#[test]
fn newline_wraps_and_runs_out() {
    let surface = TestSurface::new(10, 10);
    let ctx = PaintCtx::new(surface, None);
    let mut sized = ctx.into_sized(Size::new(4, 2), Pos::new(0, 0));
    let attribs = CanvasAttribs::new();
    let next = sized.place_glyph('\n', &attribs, LocalPos::new(3, 0));
    assert_eq!(next, Some(LocalPos::new(0, 1)));
    let next = sized.place_glyph('\n', &attribs, LocalPos::new(0, 1));
    assert_eq!(next, None);
}

#[test]
fn glyph_out_of_local_bounds_stops() {
    let surface = TestSurface::new(10, 10);
    let ctx = PaintCtx::new(surface, None);
    let mut sized = ctx.into_sized(Size::new(2, 1), Pos::new(0, 0));
    let attribs = CanvasAttribs::new();
    assert_eq!(sized.place_glyph('a', &attribs, LocalPos::new(2, 0)), None);
    assert_eq!(sized.place_glyph('a', &attribs, LocalPos::new(0, 1)), None);
}

#[test]
fn glyph_off_surface_advances_without_drawing() {
    let surface = TestSurface::new(3, 3);
    let ctx = PaintCtx::new(surface, None);
    let mut sized = sized_at(ctx, Size::new(10, 10), Pos::new(-2, 0));
    let attribs = CanvasAttribs::new();
    let next = sized.place_glyph('a', &attribs, LocalPos::new(0, 0));
    assert_eq!(next, Some(LocalPos::new(1, 0)));
    assert_eq!(sized.surface.cell(0, 0), ' ');
}

fn sized_at(
    ctx: PaintCtx<TestSurface, anathema_widgets::paint::Unsized>,
    size: Size,
    pos: Pos,
) -> PaintCtx<TestSurface, anathema_widgets::paint::SizePos> {
    ctx.into_sized(size, pos)
}

#[test]
fn place_glyphs_draws_a_string() {
    let surface = TestSurface::new(10, 10);
    let ctx = PaintCtx::new(surface, None);
    let mut sized = ctx.into_sized(Size::new(10, 10), Pos::new(1, 1));
    let attribs = CanvasAttribs::new();
    let next = sized.place_glyphs("hi", &attribs, LocalPos::new(0, 0));
    assert_eq!(next, Some(LocalPos::new(2, 0)));
    assert_eq!(sized.surface.cell(1, 1), 'h');
    assert_eq!(sized.surface.cell(2, 1), 'i');
}

#[test]
fn region_intersection_and_containment() {
    let mut a = Region::new(Pos::new(0, 0), Pos::new(5, 5));
    let b = Region::new(Pos::new(3, 2), Pos::new(8, 9));
    a.intersect_with(&b);
    assert_eq!(a, Region::new(Pos::new(3, 2), Pos::new(5, 5)));
    assert!(a.contains(Pos::new(3, 2)));
    assert!(a.contains(Pos::new(5, 5)));
    assert!(!a.contains(Pos::new(2, 2)));
    assert!(!a.contains(Pos::new(6, 5)));
}

#[test]
fn set_clip_region_intersects() {
    let surface = TestSurface::new(4, 4);
    let mut ctx = PaintCtx::new(surface, None);
    ctx.set_clip_region(Region::new(Pos::new(0, 0), Pos::new(3, 3)));
    ctx.set_clip_region(Region::new(Pos::new(2, 1), Pos::new(5, 5)));
    assert_eq!(ctx.clip, Some(Region::new(Pos::new(2, 1), Pos::new(3, 3))));
}

#[test]
fn create_region_covers_size_and_clip() {
    let surface = TestSurface::new(10, 10);
    let ctx = PaintCtx::new(surface, Some(Region::new(Pos::new(0, 0), Pos::new(4, 4))));
    let sized = ctx.into_sized(Size::new(3, 2), Pos::new(1, 1));
    let region = sized.create_region();
    assert_eq!(region, Region::new(Pos::new(1, 1), Pos::new(3, 2)));
}

#[test]
fn paint_filter_verdicts() {
    let filter = PaintFilter::new(true);
    let floating = WidgetKind::Element(Element::new(
        "position",
        WidgetContainer {
            id: anathema_widgets::attribs::WidgetId(0),
            inner: Widget::Position(anathema_widgets::position::Position::default()),
            size: Size::new(0, 0),
            pos: Pos::new(0, 0),
            display: Display::Show,
        },
    ));
    assert_eq!(filter.filter(&floating), FilterOutcome::Stop);
    let second_layer = PaintFilter::new(false);
    assert_eq!(second_layer.filter(&floating), FilterOutcome::Include);
    let hidden = WidgetKind::Element(Element::new(
        "container",
        WidgetContainer {
            id: anathema_widgets::attribs::WidgetId(1),
            inner: Widget::Container(anathema_widgets::container::Container::default()),
            size: Size::new(0, 0),
            pos: Pos::new(0, 0),
            display: Display::Hide,
        },
    ));
    assert_eq!(filter.filter(&hidden), FilterOutcome::Stop);
    assert_eq!(filter.filter(&WidgetKind::If { show: true }), FilterOutcome::PassThrough);
    assert_eq!(filter.filter(&WidgetKind::Else { show: false }), FilterOutcome::Stop);
}

#[test]
fn update_and_to_unsized_keep_surface() {
    let surface = TestSurface::new(5, 5);
    let ctx = PaintCtx::new(surface, None);
    let mut sized = ctx.into_sized(Size::new(1, 1), Pos::new(0, 0));
    sized.update(Size::new(5, 5), Pos::new(2, 2));
    let attribs = CanvasAttribs::new();
    let next = sized.place_glyph('k', &attribs, LocalPos::new(0, 0));
    assert_eq!(next, Some(LocalPos::new(1, 0)));
    let unsized_ctx = sized.to_unsized();
    assert_eq!(unsized_ctx.surface.cell(2, 2), 'k');
}

#[test]
fn pos_add_local_offsets() {
    let p = Pos::new(3, -2).add_local(LocalPos::new(4, 7));
    assert_eq!(p, Pos::new(7, 5));
}
