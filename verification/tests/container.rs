use atoz_gui::context::Context;
use atoz_gui::layout::{Alignment, Constraint, Padding, Rect};
use atoz_gui::widget::container::{
    layout_children, render_children, Horizontal, HorizontalDecoration, Vertical,
    VerticalDecoration,
};
use atoz_gui::arrange::Axis;
use atoz_gui::widget::{Color, Widget};
use atoz_gui::window::render_frame;

/// The rectangles of the backgrounds in the frame, bottom first, each as
/// (left, top, width, height).
fn rects(context: &Context) -> Vec<(usize, usize, usize, usize)> {
    let mut out = Vec::new();
    for layer in context.layers() {
        assert!(layer.circles.is_empty());
        assert!(layer.triangles.is_empty());
        assert!(layer.images.is_empty());
        assert_eq!(layer.rects.len(), 1);
        let rect = layer.rects[0];
        out.push((rect.start[0], rect.start[1], rect.size[0], rect.size[1]));
    }
    out
}

fn frame_of(root: &mut dyn Widget, rect: Option<Rect>) -> Vec<(usize, usize, usize, usize)> {
    let mut context = Context::new();
    root.layout(rect);
    root.render(&mut context);
    rects(&context)
}

fn row(constraint: Constraint, alignment: Alignment) -> Box<dyn Widget> {
    Box::new(Horizontal::new(constraint, alignment))
}

fn column(constraint: Constraint, alignment: Alignment) -> Box<dyn Widget> {
    Box::new(Vertical::new(constraint, alignment))
}

#[test]
fn container_test() {
    let _ = Horizontal::new(Constraint::pixel(10, 10), Alignment::Start)
        .set_children(vec![])
        .set_padding(Padding::default());
}

#[test]
fn container_keeps_its_request() {
    let row = Horizontal::new(Constraint::pixel(10, 10), Alignment::End);
    assert_eq!(row.constraint(), Constraint::pixel(10, 10));
    assert_eq!(row.alignment(), Alignment::End);
    let column = Vertical::new(Constraint::percent(50, 80, 5), Alignment::Start);
    assert_eq!(column.constraint(), Constraint::percent(50, 80, 5));
    assert_eq!(column.alignment(), Alignment::Start);
}

#[test]
fn container_that_was_never_laid_out_draws_nothing() {
    let root = Horizontal::new(Constraint::pixel(10, 10), Alignment::Start);
    let mut context = Context::new();
    root.render(&mut context);
    assert!(context.layers().is_empty());

    let root = Vertical::new(Constraint::percent(100, 1000, 0), Alignment::Start)
        .set_padding(Padding::default())
        .set_decoration(
            VerticalDecoration::default().set_background_color(Color::new(1, 2, 3, 255)),
        )
        .set_children(vec![
            row(Constraint::pixel(10, 0), Alignment::Start),
            column(Constraint::percent(50, 1000, 0), Alignment::End),
        ]);
    let mut context = Context::new();
    root.render(&mut context);
    assert!(context.layers().is_empty());
}

#[test]
fn first_layout_gives_the_container_its_placement() {
    let mut root = Horizontal::new(Constraint::pixel(10, 10), Alignment::Start);
    assert_eq!(frame_of(&mut root, Some(Rect::new(0, 0, 0, 0))), vec![(0, 0, 0, 0)]);
}

#[test]
fn two_phase_ordering() {
    let mut root = Horizontal::new(Constraint::percent(100, 1000, 0), Alignment::Start)
        .set_children(vec![
            row(Constraint::pixel(30, 0), Alignment::Start),
            row(Constraint::percent(100, 1000, 0), Alignment::Start),
        ]);
    assert_eq!(
        frame_of(&mut root, Some(Rect::new(0, 0, 100, 40))),
        vec![(0, 0, 100, 40), (0, 0, 30, 40), (30, 0, 70, 40)]
    );
}

#[test]
fn pixel_children_are_served_before_percent_children_declared_earlier() {
    let mut root = Horizontal::new(Constraint::percent(100, 1000, 0), Alignment::Start)
        .set_children(vec![
            row(Constraint::percent(50, 1000, 0), Alignment::Start),
            row(Constraint::pixel(30, 0), Alignment::Start),
        ]);
    // The pixel child takes [0, 30); the share is taken of the 70 left over.
    // The frame keeps declaration order.
    assert_eq!(
        frame_of(&mut root, Some(Rect::new(0, 0, 100, 40))),
        vec![(0, 0, 100, 40), (30, 0, 35, 40), (0, 0, 30, 40)]
    );
}

#[test]
fn end_alignment() {
    let mut root = Horizontal::new(Constraint::percent(100, 1000, 0), Alignment::Start)
        .set_children(vec![row(Constraint::pixel(20, 0), Alignment::End)]);
    assert_eq!(
        frame_of(&mut root, Some(Rect::new(0, 0, 100, 10))),
        vec![(0, 0, 100, 10), (80, 0, 20, 10)]
    );
}

#[test]
fn end_alignment_stacks_from_the_far_edge() {
    let mut root = Vertical::new(Constraint::percent(100, 1000, 0), Alignment::Start)
        .set_children(vec![
            row(Constraint::pixel(20, 0), Alignment::End),
            row(Constraint::pixel(10, 0), Alignment::Start),
            row(Constraint::pixel(30, 0), Alignment::End),
            row(Constraint::percent(50, 1000, 0), Alignment::End),
        ]);
    assert_eq!(
        frame_of(&mut root, Some(Rect::new(5, 100, 8, 100))),
        vec![
            (5, 100, 8, 100),
            (5, 180, 8, 20),
            (5, 100, 8, 10),
            (5, 150, 8, 30),
            (5, 130, 8, 20),
        ]
    );
}

#[test]
fn vertical_children_fill_the_width() {
    let mut root = Vertical::new(Constraint::percent(100, 1000, 0), Alignment::Start)
        .set_children(vec![
            row(Constraint::pixel(32, 0), Alignment::Start),
            row(Constraint::percent(100, 1000000, 0), Alignment::Start),
        ]);
    assert_eq!(
        frame_of(&mut root, Some(Rect::new(0, 0, 800, 600))),
        vec![(0, 0, 800, 600), (0, 0, 800, 32), (0, 32, 800, 568)]
    );
}

#[test]
fn children_are_placed_inside_the_padding() {
    let mut root = Horizontal::new(Constraint::percent(100, 1000, 0), Alignment::Start)
        .set_padding(Padding {
            left: Constraint::pixel(10, 0),
            right: Constraint::percent(10, 1000, 0),
            top: Constraint::pixel(1, 0),
            bottom: Constraint::pixel(2, 0),
        })
        .set_children(vec![
            row(Constraint::pixel(30, 0), Alignment::Start),
            row(Constraint::percent(50, 1000, 0), Alignment::End),
        ]);
    // Inner: left 10, width 200 - 10 - 20 = 170, top 1, height 47.
    assert_eq!(
        frame_of(&mut root, Some(Rect::new(0, 0, 200, 50))),
        vec![(0, 0, 200, 50), (10, 1, 30, 47), (110, 1, 70, 47)]
    );
}

#[test]
fn collapsed_subtree_silence() {
    let inner = Horizontal::new(Constraint::pixel(50, 40), Alignment::Start).set_children(vec![
        row(Constraint::pixel(10, 0), Alignment::Start),
        row(Constraint::pixel(10, 0), Alignment::Start),
    ]);
    let mut root = Horizontal::new(Constraint::percent(100, 1000, 0), Alignment::Start)
        .set_children(vec![Box::new(inner)]);
    // The child wants 50 and accepts no fewer than 40; 30 are there.
    assert_eq!(
        frame_of(&mut root, Some(Rect::new(0, 0, 30, 10))),
        vec![(0, 0, 30, 10)]
    );
}

#[test]
fn laid_out_with_none_draws_nothing() {
    let mut root = Vertical::new(Constraint::pixel(50, 0), Alignment::Start).set_children(vec![
        row(Constraint::pixel(10, 0), Alignment::Start),
        column(Constraint::percent(10, 100, 0), Alignment::End),
    ]);
    assert_eq!(frame_of(&mut root, Some(Rect::new(0, 0, 50, 50))).len(), 3);
    assert_eq!(frame_of(&mut root, None), vec![]);
    // A collapsed child comes back once there is room for it again.
    assert_eq!(frame_of(&mut root, Some(Rect::new(0, 0, 50, 50))).len(), 3);
}

#[test]
fn child_that_collapses_leaves_the_space_to_the_next() {
    let mut root = Horizontal::new(Constraint::percent(100, 1000, 0), Alignment::Start)
        .set_children(vec![
            row(Constraint::pixel(80, 0), Alignment::Start),
            row(Constraint::pixel(50, 40), Alignment::Start),
            row(Constraint::pixel(50, 10), Alignment::Start),
        ]);
    assert_eq!(
        frame_of(&mut root, Some(Rect::new(0, 0, 100, 10))),
        vec![(0, 0, 100, 10), (0, 0, 80, 10), (80, 0, 20, 10)]
    );
}

#[test]
fn layout_is_determined_by_tree_and_rect() {
    let tree = || {
        Vertical::new(Constraint::percent(100, 1000000, 0), Alignment::Start).set_children(vec![
            row(Constraint::pixel(32, 0), Alignment::Start),
            Box::new(
                Horizontal::new(Constraint::percent(100, 1000000, 0), Alignment::Start)
                    .set_children(vec![
                        column(Constraint::percent(30, 400, 200), Alignment::Start),
                        column(Constraint::percent(70, 400, 100), Alignment::Start),
                        column(Constraint::pixel(200, 100), Alignment::End),
                    ]),
            ),
        ])
    };
    let rect = Some(Rect::new(0, 0, 800, 600));
    let mut one = tree();
    let first = frame_of(&mut one, rect);
    assert_eq!(
        first,
        vec![
            (0, 0, 800, 600),
            (0, 0, 800, 32),
            (0, 32, 800, 568),
            // 30% of the 600 left over is 180, raised to the lower bound 200.
            (0, 32, 200, 568),
            // 70% of 600 is 420, held at the upper bound 400.
            (200, 32, 400, 568),
            (600, 32, 200, 568),
        ]
    );
    // Again, after a detour through another size and through a collapse.
    frame_of(&mut one, Some(Rect::new(7, 7, 300, 100)));
    frame_of(&mut one, None);
    assert_eq!(frame_of(&mut one, rect), first);
    // And on a fresh tree of the same description.
    let mut other = tree();
    assert_eq!(frame_of(&mut other, rect), first);
}

#[test]
fn space_is_conserved() {
    let mut root = Horizontal::new(Constraint::percent(100, 1000, 0), Alignment::Start)
        .set_children(vec![
            row(Constraint::percent(60, 1000, 0), Alignment::Start),
            row(Constraint::pixel(40, 0), Alignment::End),
            row(Constraint::percent(60, 1000, 0), Alignment::End),
            row(Constraint::pixel(25, 0), Alignment::Start),
            row(Constraint::percent(100, 1000, 0), Alignment::Start),
        ]);
    let frame = frame_of(&mut root, Some(Rect::new(0, 0, 100, 10)));
    // Pixels first: 40 at the end, 25 at the start; 35 are left. 60% of 35 is
    // 21 for the first child; the third wants 21 too and shrinks to the 14
    // that are left; the last finds nothing and is collapsed.
    assert_eq!(
        frame,
        vec![
            (0, 0, 100, 10),
            (25, 0, 21, 10),
            (60, 0, 40, 10),
            (46, 0, 14, 10),
            (0, 0, 25, 10),
        ]
    );
    let total: usize = frame[1..].iter().map(|rect| rect.2).sum();
    assert!(total <= 100);
    assert_eq!(total, 21 + 40 + 14 + 25);
}

#[test]
fn background_carries_the_decoration() {
    let mut root = Horizontal::new(Constraint::pixel(10, 0), Alignment::Start).set_decoration(
        HorizontalDecoration::default()
            .set_background_color(Color::new(30, 30, 30, 255))
            .set_border_radius(5, 6, 7, 8),
    );
    let mut context = Context::new();
    root.layout(Some(Rect::new(1, 2, 3, 4)));
    root.render(&mut context);
    let rect = context.layers()[0].rects[0];
    assert_eq!(rect.start, [1, 2]);
    assert_eq!(rect.size, [3, 4]);
    assert_eq!(rect.thickness, 1);
    assert_eq!(rect.radius, [5, 6, 7, 8]);
    assert_eq!(rect.fill_color, Color::new(30, 30, 30, 255));
    assert_eq!(rect.line_color, Color::new(30, 30, 30, 255));

    let mut root = Vertical::new(Constraint::pixel(10, 0), Alignment::Start).set_decoration(
        VerticalDecoration::default()
            .set_border_radius(10, 20, 30, 40)
            .set_background_color(Color::new(10, 20, 40, 50)),
    );
    let mut context = Context::new();
    root.layout(Some(Rect::new(1, 2, 3, 4)));
    root.render(&mut context);
    let rect = context.layers()[0].rects[0];
    assert_eq!(rect.radius, [10, 20, 30, 40]);
    assert_eq!(rect.fill_color, Color::new(10, 20, 40, 50));
}

#[test]
fn default_decoration_is_transparent_and_square() {
    let mut root = Vertical::new(Constraint::pixel(10, 0), Alignment::Start);
    let mut context = Context::new();
    root.layout(Some(Rect::new(0, 0, 1, 1)));
    root.render(&mut context);
    let rect = context.layers()[0].rects[0];
    assert_eq!(rect.radius, [0, 0, 0, 0]);
    assert_eq!(rect.fill_color, Color::new(0, 0, 0, 0));
}

#[test]
fn render_appends_on_top_of_what_is_there() {
    let mut root = Horizontal::new(Constraint::pixel(10, 0), Alignment::Start);
    let mut context = Context::new();
    root.layout(Some(Rect::new(1, 1, 1, 1)));
    root.render(&mut context);
    root.layout(Some(Rect::new(2, 2, 2, 2)));
    root.render(&mut context);
    assert_eq!(rects(&context), vec![(1, 1, 1, 1), (2, 2, 2, 2)]);
}

#[test]
fn layout_children_places_each_child_once() {
    let mut children = vec![
        row(Constraint::percent(50, 1000, 0), Alignment::Start),
        row(Constraint::pixel(10, 0), Alignment::Start),
    ];
    layout_children(Axis::Vertical, &mut children, Rect::new(0, 0, 9, 30));
    let mut context = Context::new();
    render_children(&children, &mut context);
    assert_eq!(rects(&context), vec![(0, 10, 9, 10), (0, 0, 9, 10)]);
}

#[test]
fn render_frame_starts_from_an_empty_frame() {
    let mut root = Vertical::new(Constraint::percent(100, 1000000, 0), Alignment::Start)
        .set_children(vec![row(Constraint::pixel(32, 0), Alignment::Start)]);
    let mut context = Context::new();
    render_frame(&mut root, &mut context, 800, 600);
    assert_eq!(rects(&context), vec![(0, 0, 800, 600), (0, 0, 800, 32)]);
    render_frame(&mut root, &mut context, 800, 600);
    assert_eq!(rects(&context), vec![(0, 0, 800, 600), (0, 0, 800, 32)]);
    render_frame(&mut root, &mut context, 20, 10);
    assert_eq!(rects(&context), vec![(0, 0, 20, 10), (0, 0, 20, 10)]);
}

#[test]
fn render_frame_takes_a_boxed_tree() {
    let mut root: Box<dyn Widget> = row(Constraint::pixel(10, 0), Alignment::Start);
    let mut context = Context::new();
    render_frame(root.as_mut(), &mut context, 3, 4);
    assert_eq!(rects(&context), vec![(0, 0, 3, 4)]);
}

#[test]
fn children_lie_inside_and_apart() {
    let mut root = Vertical::new(Constraint::percent(100, 1000, 0), Alignment::Start)
        .set_padding(Padding {
            left: Constraint::pixel(3, 0),
            right: Constraint::pixel(3, 0),
            top: Constraint::percent(10, 1000, 0),
            bottom: Constraint::percent(10, 1000, 0),
        })
        .set_children(vec![
            row(Constraint::percent(40, 1000, 0), Alignment::End),
            row(Constraint::pixel(50, 0), Alignment::Start),
            row(Constraint::percent(40, 1000, 0), Alignment::Start),
            row(Constraint::pixel(70, 0), Alignment::End),
            row(Constraint::percent(40, 1000, 0), Alignment::End),
        ]);
    let frame = frame_of(&mut root, Some(Rect::new(10, 20, 100, 300)));
    // Inner: left 13, width 94, top 50, height 240. Pixels: 50 from the top,
    // 70 from the bottom; 120 are left, of which each share is 48, and the
    // last finds only 24.
    assert_eq!(
        frame,
        vec![
            (10, 20, 100, 300),
            (13, 172, 94, 48),
            (13, 50, 94, 50),
            (13, 100, 94, 48),
            (13, 220, 94, 70),
            (13, 148, 94, 24),
        ]
    );
    let children = &frame[1..];
    for (i, a) in children.iter().enumerate() {
        assert!(50 <= a.1 && a.1 + a.3 <= 290);
        for b in &children[i + 1..] {
            assert!(a.1 + a.3 <= b.1 || b.1 + b.3 <= a.1);
        }
    }
}
