use glume::renderers::basic_renderers::ClearColorRenderer;
use glume::renderers::basic_renderers::ExternalRenderer;
use glume::renderers::basic_renderers::FixedAspectRatioRenderer;
use glume::renderers::basic_renderers::HSplitRenderer;
use glume::renderers::basic_renderers::InsetRenderer;
use glume::renderers::basic_renderers::NullRenderer;
use glume::renderers::basic_renderers::SplitPoint;
use glume::renderers::basic_renderers::VSplitRenderer;
use glume::renderers::layout::fit_viewport;
use glume::renderers::layout::inset_viewport;
use glume::renderers::layout::split_viewports;
use glume::renderers::layout::AspectRatio;
use glume::renderers::layout::Ratio;
use glume::renderers::saturate_i64;
use glume::renderers::DrawCommand;
use glume::renderers::IntRect;
use glume::renderers::Renderer;

const RED: [u32; 4] = [0x3f80_0000, 0, 0, 0x3f80_0000];
const BLUE: [u32; 4] = [0, 0, 0x3f80_0000, 0x3f80_0000];

fn rect(x: i32, y: i32, w: i32, h: i32) -> IntRect {
    IntRect::new([x, y], [w, h])
}

fn clear(color: [u32; 4]) -> ClearColorRenderer {
    ClearColorRenderer::new(IntRect::default(), color)
}

fn ratio(numer: u32, denom: u32) -> SplitPoint {
    SplitPoint::Ratio(Ratio::new(numer, denom).unwrap())
}

fn contains(r: &IntRect, x: i64, y: i64) -> bool {
    let (rx, ry) = (r.pos[0] as i64, r.pos[1] as i64);
    rx <= x && x < rx + r.size[0] as i64 && ry <= y && y < ry + r.size[1] as i64
}

#[test]
fn int_rect_new_keeps_its_parts() {
    let r = IntRect::new([1, 2], [3, 4]);
    assert_eq!(r.pos, [1, 2]);
    assert_eq!(r.size, [3, 4]);
}

#[test]
fn int_rect_default_is_empty_at_origin() {
    assert_eq!(IntRect::default(), rect(0, 0, 0, 0));
}

#[test]
fn int_rect_from_conversions() {
    assert_eq!(IntRect::from([[1, 2], [3, 4]]), rect(1, 2, 3, 4));
    assert_eq!(IntRect::from([1, 2, 3, 4]), rect(1, 2, 3, 4));
    assert_eq!(IntRect::from((1, 2, 3, 4)), rect(1, 2, 3, 4));
    assert_eq!(IntRect::from([3, 4]), rect(0, 0, 3, 4));
    assert_eq!(IntRect::from((3, 4)), rect(0, 0, 3, 4));
}

#[test]
fn gl_viewport_names_the_rect() {
    assert_eq!(rect(1, 2, 3, 4).gl_viewport(), DrawCommand::Viewport(rect(1, 2, 3, 4)));
}

#[test]
fn saturate_limits_to_i32() {
    assert_eq!(saturate_i64(5), 5);
    assert_eq!(saturate_i64(i32::MAX as i64 + 1), i32::MAX);
    assert_eq!(saturate_i64(i32::MIN as i64 - 1), i32::MIN);
}

#[test]
fn ratio_new_accepts_fractions_up_to_one() {
    assert!(Ratio::new(0, 1).is_some());
    assert!(Ratio::new(1, 1).is_some());
    let third = Ratio::new(1, 3).unwrap();
    assert_eq!(third.numerator(), 1);
    assert_eq!(third.denominator(), 3);
}

#[test]
fn ratio_new_rejects_zero_denominator_and_more_than_one() {
    assert!(Ratio::new(1, 0).is_none());
    assert!(Ratio::new(0, 0).is_none());
    assert!(Ratio::new(3, 2).is_none());
}

#[test]
fn ratio_scale_rounds_down() {
    assert_eq!(Ratio::new(1, 2).unwrap().scale(100), 50);
    assert_eq!(Ratio::new(1, 3).unwrap().scale(100), 33);
    assert_eq!(Ratio::new(2, 3).unwrap().scale(100), 66);
    assert_eq!(Ratio::new(1, 1).unwrap().scale(u32::MAX), u32::MAX);
    assert_eq!(Ratio::new(u32::MAX, u32::MAX).unwrap().scale(u32::MAX), u32::MAX);
    assert_eq!(Ratio::new(0, 5).unwrap().scale(100), 0);
}

#[test]
fn aspect_ratio_new_needs_positive_terms() {
    assert!(AspectRatio::new(0, 1).is_none());
    assert!(AspectRatio::new(1, 0).is_none());
    let wide = AspectRatio::new(16, 9).unwrap();
    assert_eq!(wide.width_term(), 16);
    assert_eq!(wide.height_term(), 9);
}

#[test]
fn split_point_absolute_from_near_edge() {
    assert_eq!(SplitPoint::Absolute(30).to_absolute(100), 30);
    assert_eq!(SplitPoint::Absolute(0).to_absolute(100), 0);
    assert_eq!(SplitPoint::Absolute(100).to_absolute(100), 100);
}

#[test]
fn split_point_negative_absolute_counts_from_far_edge() {
    assert_eq!(SplitPoint::Absolute(-30).to_absolute(100), 70);
    assert_eq!(SplitPoint::Absolute(-1).to_absolute(100), 99);
    assert_eq!(SplitPoint::Absolute(-100).to_absolute(100), 0);
}

#[test]
fn split_point_is_clamped_to_the_extent() {
    assert_eq!(SplitPoint::Absolute(150).to_absolute(100), 100);
    assert_eq!(SplitPoint::Absolute(-150).to_absolute(100), 0);
    assert_eq!(SplitPoint::Absolute(i32::MAX).to_absolute(10), 10);
    assert_eq!(SplitPoint::Absolute(i32::MIN).to_absolute(i32::MAX), 0);
}

#[test]
fn split_point_ratio_scales_the_extent() {
    assert_eq!(ratio(1, 2).to_absolute(100), 50);
    assert_eq!(ratio(1, 4).to_absolute(10), 2);
    assert_eq!(ratio(1, 1).to_absolute(i32::MAX), i32::MAX);
    assert_eq!(ratio(0, 1).to_absolute(100), 0);
}

#[test]
fn split_point_in_empty_or_negative_extent_is_zero() {
    assert_eq!(SplitPoint::Absolute(5).to_absolute(0), 0);
    assert_eq!(SplitPoint::Absolute(5).to_absolute(-20), 0);
    assert_eq!(SplitPoint::Absolute(-5).to_absolute(-20), 0);
    assert_eq!(ratio(1, 2).to_absolute(-20), 0);
    assert_eq!(SplitPoint::Absolute(-5).to_absolute(i32::MIN), 0);
}

#[test]
fn vsplit_at_half_of_a_hundred() {
    let node = VSplitRenderer::new(rect(0, 0, 100, 100), ratio(1, 2), clear(RED), clear(BLUE));
    assert_eq!(
        node.get_top().render(),
        vec![DrawCommand::Viewport(rect(0, 0, 100, 50)), DrawCommand::ClearColor(RED)]
    );
    assert_eq!(
        node.get_bottom().render(),
        vec![DrawCommand::Viewport(rect(0, 50, 100, 50)), DrawCommand::ClearColor(BLUE)]
    );
}

#[test]
fn hsplit_places_left_and_right() {
    let node =
        HSplitRenderer::new(rect(10, 20, 100, 40), SplitPoint::Absolute(30), clear(RED), clear(BLUE));
    assert_eq!(
        node.render(),
        vec![
            DrawCommand::Viewport(rect(10, 20, 30, 40)),
            DrawCommand::ClearColor(RED),
            DrawCommand::Viewport(rect(40, 20, 70, 40)),
            DrawCommand::ClearColor(BLUE),
        ]
    );
}

#[test]
fn split_viewports_tile_the_parent() {
    let parent = rect(-3, 7, 9, 5);
    for horizontal in [true, false] {
        for sp in [
            SplitPoint::Absolute(0),
            SplitPoint::Absolute(4),
            SplitPoint::Absolute(-2),
            SplitPoint::Absolute(40),
            ratio(1, 3),
            ratio(1, 1),
        ] {
            let (first, second) = split_viewports(parent, horizontal, sp);
            for x in -6..10 {
                for y in 4..15 {
                    let a = contains(&first, x, y);
                    let b = contains(&second, x, y);
                    assert!(!(a && b));
                    assert_eq!(a || b, contains(&parent, x, y));
                }
            }
        }
    }
}

#[test]
fn split_viewports_of_a_negative_size_are_empty() {
    let (first, second) = split_viewports(rect(5, 6, -10, 20), true, SplitPoint::Absolute(3));
    assert_eq!(first, rect(5, 6, 0, 20));
    assert_eq!(second, rect(5, 6, 0, 20));
    let (first, second) = split_viewports(rect(5, 6, 10, -20), true, SplitPoint::Absolute(3));
    assert_eq!(first, rect(5, 6, 3, 0));
    assert_eq!(second, rect(8, 6, 7, 0));
}

#[test]
fn split_viewports_keep_the_corner_in_range() {
    let (first, second) =
        split_viewports(rect(i32::MAX - 2, 0, 10, 10), true, SplitPoint::Absolute(5));
    assert_eq!(first, rect(i32::MAX - 2, 0, 5, 10));
    assert_eq!(second, rect(i32::MAX, 0, 5, 10));
}

#[test]
fn set_split_point_places_children_anew() {
    let mut node =
        HSplitRenderer::new(rect(0, 0, 100, 10), SplitPoint::Absolute(30), clear(RED), clear(BLUE));
    node.set_split_point(SplitPoint::Absolute(-10));
    assert_eq!(node.get_left().render()[0], DrawCommand::Viewport(rect(0, 0, 90, 10)));
    assert_eq!(node.get_right().render()[0], DrawCommand::Viewport(rect(90, 0, 10, 10)));
    let mut node =
        VSplitRenderer::new(rect(0, 0, 10, 100), SplitPoint::Absolute(30), clear(RED), clear(BLUE));
    node.set_split_point(ratio(3, 4));
    assert_eq!(node.get_top().render()[0], DrawCommand::Viewport(rect(0, 0, 10, 75)));
    assert_eq!(node.get_bottom().render()[0], DrawCommand::Viewport(rect(0, 75, 10, 25)));
}

#[test]
fn set_viewport_reaches_every_descendant() {
    let inner = VSplitRenderer::new(IntRect::default(), ratio(1, 2), clear(RED), clear(BLUE));
    let framed = InsetRenderer::new(IntRect::default(), 10, clear(BLUE), inner);
    let mut root =
        HSplitRenderer::new(rect(0, 0, 100, 100), SplitPoint::Absolute(200), clear(RED), framed);
    root.set_viewport(rect(0, 0, 640, 480));
    assert_eq!(
        root.render(),
        vec![
            DrawCommand::Viewport(rect(0, 0, 200, 480)),
            DrawCommand::ClearColor(RED),
            DrawCommand::Viewport(rect(200, 0, 440, 480)),
            DrawCommand::ClearColor(BLUE),
            DrawCommand::Viewport(rect(210, 10, 420, 230)),
            DrawCommand::ClearColor(RED),
            DrawCommand::Viewport(rect(210, 240, 420, 230)),
            DrawCommand::ClearColor(BLUE),
        ]
    );
}

#[test]
fn render_leaves_the_tree_as_it_is() {
    let node = VSplitRenderer::new(rect(0, 0, 8, 8), ratio(1, 4), clear(RED), clear(BLUE));
    let first = node.render();
    let second = node.render();
    assert_eq!(first, second);
}

#[test]
fn inset_shrinks_on_all_sides() {
    assert_eq!(inset_viewport(rect(5, 6, 100, 50), 10), rect(15, 16, 80, 30));
    assert_eq!(inset_viewport(rect(5, 6, 100, 50), 0), rect(5, 6, 100, 50));
    assert_eq!(inset_viewport(rect(5, 6, 100, 50), 25), rect(30, 31, 50, 0));
}

#[test]
fn inset_that_leaves_nothing_gives_zero_size() {
    assert_eq!(inset_viewport(rect(5, 6, 100, 50), 30), rect(35, 36, 0, 0));
    assert_eq!(inset_viewport(rect(5, 6, 100, 50), 60), rect(65, 66, 0, 0));
    assert_eq!(inset_viewport(rect(0, 0, -4, 50), 1), rect(1, 1, 0, 0));
}

#[test]
fn negative_inset_grows() {
    assert_eq!(inset_viewport(rect(5, 6, 100, 50), -2), rect(3, 4, 104, 54));
    assert_eq!(
        inset_viewport(rect(i32::MIN, 0, i32::MAX, i32::MAX), i32::MIN),
        rect(i32::MIN, i32::MIN, i32::MAX, i32::MAX)
    );
}

#[test]
fn inset_renderer_draws_outside_then_inside() {
    let node = InsetRenderer::new(rect(0, 0, 100, 50), 10, clear(RED), clear(BLUE));
    assert_eq!(
        node.render(),
        vec![
            DrawCommand::Viewport(rect(0, 0, 100, 50)),
            DrawCommand::ClearColor(RED),
            DrawCommand::Viewport(rect(10, 10, 80, 30)),
            DrawCommand::ClearColor(BLUE),
        ]
    );
    assert_eq!(node.get_outside().render()[0], DrawCommand::Viewport(rect(0, 0, 100, 50)));
    assert_eq!(node.get_inside().render()[0], DrawCommand::Viewport(rect(10, 10, 80, 30)));
}

#[test]
fn set_inset_places_children_anew() {
    let mut node = InsetRenderer::new(rect(0, 0, 100, 50), 10, clear(RED), clear(BLUE));
    node.set_inset(20);
    assert_eq!(node.get_inside().render()[0], DrawCommand::Viewport(rect(20, 20, 60, 10)));
    assert_eq!(node.get_outside().render()[0], DrawCommand::Viewport(rect(0, 0, 100, 50)));
    node.set_viewport(rect(1, 1, 50, 50));
    assert_eq!(node.get_inside().render()[0], DrawCommand::Viewport(rect(21, 21, 10, 10)));
}

#[test]
fn fit_is_limited_by_the_width() {
    let wide = AspectRatio::new(16, 9).unwrap();
    assert_eq!(fit_viewport(rect(0, 0, 1920, 1200), wide), rect(0, 60, 1920, 1080));
}

#[test]
fn fit_is_limited_by_the_height() {
    let classic = AspectRatio::new(4, 3).unwrap();
    assert_eq!(fit_viewport(rect(10, 20, 1000, 300), classic), rect(310, 20, 400, 300));
}

#[test]
fn fit_rounds_the_leftover_down() {
    let square = AspectRatio::new(1, 1).unwrap();
    assert_eq!(fit_viewport(rect(0, 0, 5, 2), square), rect(1, 0, 2, 2));
    assert_eq!(fit_viewport(rect(0, 0, 2, 5), square), rect(0, 1, 2, 2));
    assert_eq!(fit_viewport(rect(0, 0, 7, 7), square), rect(0, 0, 7, 7));
}

#[test]
fn fit_never_exceeds_the_parent() {
    for (aw, ah) in [(1, 1), (16, 9), (9, 16), (1, 1000), (1000, 1), (u32::MAX, 1), (1, u32::MAX)] {
        let aspect = AspectRatio::new(aw, ah).unwrap();
        for (w, h) in [(0, 0), (1, 1), (640, 480), (3, 1000), (1000, 3), (i32::MAX, i32::MAX), (-5, 9)] {
            let child = fit_viewport(rect(0, 0, w, h), aspect);
            assert!(0 <= child.size[0] && child.size[0] <= w.max(0));
            assert!(0 <= child.size[1] && child.size[1] <= h.max(0));
            assert!(child.size[0] == w.max(0) || child.size[1] == h.max(0));
            assert_eq!(child.pos[0], (w.max(0) - child.size[0]) / 2);
            assert_eq!(child.pos[1], (h.max(0) - child.size[1]) / 2);
        }
    }
}

#[test]
fn fixed_aspect_ratio_renderer_places_its_child() {
    let wide = AspectRatio::new(2, 1).unwrap();
    let mut node = FixedAspectRatioRenderer::new(rect(0, 0, 100, 100), wide, clear(RED));
    assert_eq!(
        node.render(),
        vec![DrawCommand::Viewport(rect(0, 25, 100, 50)), DrawCommand::ClearColor(RED)]
    );
    node.set_aspect_ratio(AspectRatio::new(1, 2).unwrap());
    assert_eq!(node.get_subrenderer().render()[0], DrawCommand::Viewport(rect(25, 0, 50, 100)));
    node.set_viewport(rect(0, 0, 10, 10));
    assert_eq!(node.get_subrenderer().render()[0], DrawCommand::Viewport(rect(2, 0, 5, 10)));
}

#[test]
fn null_renderer_draws_nothing() {
    let mut null = NullRenderer;
    null.set_viewport(rect(0, 0, 10, 10));
    assert_eq!(null.render(), vec![]);
    let node = HSplitRenderer::new(rect(0, 0, 10, 10), ratio(1, 2), NullRenderer, clear(RED));
    assert_eq!(
        node.render(),
        vec![DrawCommand::Viewport(rect(5, 0, 5, 10)), DrawCommand::ClearColor(RED)]
    );
}

#[test]
fn clear_color_hands_its_color_on_unchanged() {
    let odd = [0x7fc0_0000, 0xbf80_0000, 0x4000_0000, 0];
    let mut leaf = ClearColorRenderer::new(rect(1, 2, 3, 4), odd);
    assert_eq!(
        leaf.render(),
        vec![DrawCommand::Viewport(rect(1, 2, 3, 4)), DrawCommand::ClearColor(odd)]
    );
    leaf.set_viewport(rect(5, 6, 7, 8));
    assert_eq!(
        leaf.render(),
        vec![DrawCommand::Viewport(rect(5, 6, 7, 8)), DrawCommand::ClearColor(odd)]
    );
}

#[test]
fn external_renderer_names_its_handle() {
    let mut leaf = ExternalRenderer::new(rect(1, 2, 3, 4), 7);
    assert_eq!(
        leaf.render(),
        vec![DrawCommand::External { renderer: 7, viewport_rect: rect(1, 2, 3, 4) }]
    );
    leaf.set_viewport(rect(0, 0, 9, 9));
    assert_eq!(
        leaf.render(),
        vec![DrawCommand::External { renderer: 7, viewport_rect: rect(0, 0, 9, 9) }]
    );
}

#[test]
fn children_can_be_changed_in_place() {
    let inner = HSplitRenderer::new(IntRect::default(), ratio(1, 2), clear(RED), clear(BLUE));
    let mut node = VSplitRenderer::new(rect(0, 0, 100, 100), ratio(1, 2), inner, clear(BLUE));
    node.get_top_mut().set_split_point(SplitPoint::Absolute(10));
    assert_eq!(
        node.get_top().render(),
        vec![
            DrawCommand::Viewport(rect(0, 0, 10, 50)),
            DrawCommand::ClearColor(RED),
            DrawCommand::Viewport(rect(10, 0, 90, 50)),
            DrawCommand::ClearColor(BLUE),
        ]
    );
    node.get_bottom_mut().set_viewport(rect(1, 1, 1, 1));
    assert_eq!(node.get_bottom().render()[0], DrawCommand::Viewport(rect(1, 1, 1, 1)));

    let mut node = HSplitRenderer::new(rect(0, 0, 10, 10), ratio(1, 2), clear(RED), clear(BLUE));
    node.get_left_mut().set_viewport(rect(2, 2, 2, 2));
    node.get_right_mut().set_viewport(rect(3, 3, 3, 3));
    assert_eq!(node.get_left().render()[0], DrawCommand::Viewport(rect(2, 2, 2, 2)));
    assert_eq!(node.get_right().render()[0], DrawCommand::Viewport(rect(3, 3, 3, 3)));

    let mut node = InsetRenderer::new(rect(0, 0, 10, 10), 1, clear(RED), clear(BLUE));
    node.get_outside_mut().set_viewport(rect(2, 2, 2, 2));
    node.get_inside_mut().set_viewport(rect(3, 3, 3, 3));
    assert_eq!(node.get_outside().render()[0], DrawCommand::Viewport(rect(2, 2, 2, 2)));
    assert_eq!(node.get_inside().render()[0], DrawCommand::Viewport(rect(3, 3, 3, 3)));

    let square = AspectRatio::new(1, 1).unwrap();
    let mut node = FixedAspectRatioRenderer::new(rect(0, 0, 10, 10), square, clear(RED));
    node.get_subrenderer_mut().set_viewport(rect(4, 4, 4, 4));
    assert_eq!(node.get_subrenderer().render()[0], DrawCommand::Viewport(rect(4, 4, 4, 4)));
}
