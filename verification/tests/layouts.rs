//! Every layout, flips and sizes.

use std::str::FromStr;

use mochi::geometry::{Axis, Rect};
use mochi::layout::{grid_columns, Flip, Layout, Sizing};
use mochi::model::CycleDirection;

const AREA: Rect = Rect { left: 0, top: 0, right: 1920, bottom: 1080 };

/// The rectangles must tile `area` exactly: no overlap and full coverage.
fn assert_tiles(rects: &[Rect], area: Rect) {
    let covered: i64 = rects.iter().map(Rect::area).sum();
    assert_eq!(
        covered,
        area.area(),
        "coverage mismatch for {rects:#?} in {area:?}"
    );
    for (i, a) in rects.iter().enumerate() {
        assert!(!a.is_empty(), "rect {i} is empty: {a:?}");
        assert!(area.contains_rect(a), "rect {i} escapes the area: {a:?}");
        for (j, b) in rects.iter().enumerate().skip(i + 1) {
            assert!(!a.intersects(b), "rects {i} and {j} overlap: {a:?} {b:?}");
        }
    }
}

#[test]
fn zero_containers_give_zero_rects() {
    for layout in Layout::ALL {
        assert!(
            layout.calculate(AREA, 0, 10, Flip::none(), &[]).is_empty(),
            "{layout:?} with no containers"
        );
    }
}

#[test]
fn every_layout_tiles_the_area_for_one_to_six_containers() {
    for layout in Layout::ALL {
        for len in 1..=6 {
            let rects = layout.calculate(AREA, len, 0, Flip::none(), &[]);
            assert_eq!(rects.len(), len, "{layout:?} with {len}");
            assert_tiles(&rects, AREA);
        }
    }
}

#[test]
fn every_layout_tiles_an_offset_and_a_portrait_area() {
    let areas = [
        Rect::new(1920, 0, 3000, 1920), // the portrait monitor on the right
        Rect::new(-1080, 200, 0, 1000), // a monitor left of the origin
        Rect::new(0, 0, 3840, 2160),
    ];
    for area in areas {
        for layout in Layout::ALL {
            for len in 1..=6 {
                let rects = layout.calculate(area, len, 0, Flip::none(), &[]);
                assert_eq!(rects.len(), len);
                assert_tiles(&rects, area);
            }
        }
    }
}

#[test]
fn container_padding_shrinks_every_rect_symmetrically() {
    for layout in Layout::ALL {
        for len in 1..=6 {
            let bare = layout.calculate(AREA, len, 0, Flip::none(), &[]);
            let padded = layout.calculate(AREA, len, 10, Flip::none(), &[]);
            assert_eq!(bare.len(), padded.len());
            for (b, p) in bare.iter().zip(padded.iter()) {
                assert_eq!(p.left, b.left + 10, "{layout:?}");
                assert_eq!(p.top, b.top + 10, "{layout:?}");
                assert_eq!(p.right, b.right - 10, "{layout:?}");
                assert_eq!(p.bottom, b.bottom - 10, "{layout:?}");
            }
        }
    }
}

#[test]
fn absurd_padding_never_inverts_a_rect() {
    for layout in Layout::ALL {
        for len in 1..=6 {
            for rect in layout.calculate(AREA, len, 5000, Flip::none(), &[]) {
                assert!(rect.width() >= 0 && rect.height() >= 0, "{layout:?} {rect:?}");
            }
        }
    }
}

#[test]
fn a_tiny_area_never_panics() {
    for layout in Layout::ALL {
        for len in 0..=6 {
            for size in [0, 1, 3, 7] {
                let area = Rect::new(0, 0, size, size);
                let rects = layout.calculate(area, len, 2, Flip::none(), &[]);
                assert_eq!(rects.len(), len, "{layout:?} {len} {size}");
            }
        }
    }
}

#[test]
fn columns_are_equal_and_ordered() {
    let rects = Layout::Columns.calculate(AREA, 4, 0, Flip::none(), &[]);
    assert_eq!(rects[0], Rect::new(0, 0, 480, 1080));
    assert_eq!(rects[3], Rect::new(1440, 0, 1920, 1080));
    assert!(rects.windows(2).all(|w| w[0].left < w[1].left));
}

#[test]
fn rows_are_equal_and_ordered() {
    let rects = Layout::Rows.calculate(AREA, 3, 0, Flip::none(), &[]);
    assert_eq!(rects[0], Rect::new(0, 0, 1920, 360));
    assert_eq!(rects[2], Rect::new(0, 720, 1920, 1080));
}

#[test]
fn vertical_stack_puts_the_main_container_on_the_left() {
    let one = Layout::VerticalStack.calculate(AREA, 1, 0, Flip::none(), &[]);
    assert_eq!(one, vec![AREA]);

    let rects = Layout::VerticalStack.calculate(AREA, 3, 0, Flip::none(), &[]);
    assert_eq!(
        rects[0],
        Rect::new(0, 0, 960, 1080),
        "main is the left half"
    );
    assert_eq!(rects[1], Rect::new(960, 0, 1920, 540));
    assert_eq!(rects[2], Rect::new(960, 540, 1920, 1080));
}

#[test]
fn horizontal_stack_puts_the_main_container_on_top() {
    let rects = Layout::HorizontalStack.calculate(AREA, 3, 0, Flip::none(), &[]);
    assert_eq!(rects[0], Rect::new(0, 0, 1920, 540));
    assert_eq!(rects[1], Rect::new(0, 540, 960, 1080));
    assert_eq!(rects[2], Rect::new(960, 540, 1920, 1080));
}

#[test]
fn ultrawide_centres_the_primary_container() {
    let one = Layout::UltrawideVerticalStack.calculate(AREA, 1, 0, Flip::none(), &[]);
    assert_eq!(one, vec![AREA]);

    let two = Layout::UltrawideVerticalStack.calculate(AREA, 2, 0, Flip::none(), &[]);
    assert_eq!(
        two[0],
        Rect::new(960, 0, 1920, 1080),
        "primary on the right"
    );
    assert_eq!(two[1], Rect::new(0, 0, 960, 1080), "secondary on the left");

    let four = Layout::UltrawideVerticalStack.calculate(AREA, 4, 0, Flip::none(), &[]);
    assert_eq!(
        four[0],
        Rect::new(480, 0, 1440, 1080),
        "primary in the middle"
    );
    assert_eq!(four[1], Rect::new(0, 0, 480, 1080), "secondary on the left");
    assert_eq!(four[2], Rect::new(1440, 0, 1920, 540), "stack top right");
    assert_eq!(four[3], Rect::new(1440, 540, 1920, 1080));
}

#[test]
fn grid_column_counts_are_square_ish() {
    assert_eq!(grid_columns(0), 1);
    assert_eq!(grid_columns(1), 1);
    assert_eq!(grid_columns(2), 2);
    assert_eq!(grid_columns(4), 2);
    assert_eq!(grid_columns(5), 3);
    assert_eq!(grid_columns(9), 3);
    assert_eq!(grid_columns(10), 4);
}

#[test]
fn grid_fills_left_to_right() {
    let four = Layout::Grid.calculate(AREA, 4, 0, Flip::none(), &[]);
    assert_eq!(four[0], Rect::new(0, 0, 960, 540));
    assert_eq!(four[1], Rect::new(0, 540, 960, 1080));
    assert_eq!(four[2], Rect::new(960, 0, 1920, 540));
    assert_eq!(four[3], Rect::new(960, 540, 1920, 1080));

    let three = Layout::Grid.calculate(AREA, 3, 0, Flip::none(), &[]);
    assert_eq!(
        three[0],
        Rect::new(0, 0, 960, 1080),
        "the short column is first"
    );
    assert_eq!(three[1], Rect::new(960, 0, 1920, 540));
    assert_eq!(three[2], Rect::new(960, 540, 1920, 1080));
}

#[test]
fn flipping_horizontally_mirrors_left_to_right() {
    let normal = Layout::Columns.calculate(AREA, 3, 0, Flip::none(), &[]);
    let flipped = Layout::Columns.calculate(AREA, 3, 0, Flip::horizontal(), &[]);
    assert_eq!(flipped[0], normal[2]);
    assert_eq!(flipped[2], normal[0]);
    assert_tiles(&flipped, AREA);
}

#[test]
fn flipping_vertically_mirrors_top_to_bottom() {
    let normal = Layout::Rows.calculate(AREA, 3, 0, Flip::none(), &[]);
    let flipped = Layout::Rows.calculate(AREA, 3, 0, Flip::vertical(), &[]);
    assert_eq!(flipped[0], normal[2]);
    assert_eq!(flipped[2], normal[0]);
}

#[test]
fn flipping_both_axes_still_tiles() {
    for layout in Layout::ALL {
        for len in 1..=6 {
            let rects = layout.calculate(AREA, len, 0, Flip::both(), &[]);
            assert_tiles(&rects, AREA);
        }
    }
}

#[test]
fn flipping_twice_is_the_identity() {
    for layout in Layout::ALL {
        let normal = layout.calculate(AREA, 5, 0, Flip::none(), &[]);
        let twice: Vec<Rect> = layout
            .calculate(AREA, 5, 0, Flip::both(), &[])
            .into_iter()
            .map(|r| Flip::both().apply(AREA, r))
            .collect();
        assert_eq!(twice, normal, "{layout:?}");
    }
}

#[test]
fn flip_helpers() {
    assert!(Flip::none().is_none());
    assert!(!Flip::horizontal().is_none());
    assert!(Flip::horizontal().is_flipped(Axis::Horizontal));
    assert!(!Flip::horizontal().is_flipped(Axis::Vertical));
    assert_eq!(Flip::none().toggled(Axis::Vertical), Flip::vertical());
    assert_eq!(Flip::vertical().toggled(Axis::Vertical), Flip::none());
    assert_eq!(Flip::horizontal().toggled(Axis::Vertical), Flip::both());
    assert_eq!(Flip::default(), Flip::none());
}

#[test]
fn resizing_moves_a_boundary_and_still_tiles() {
    let resize = vec![Some(Rect::new(0, 0, 200, 0)), None, None];
    for layout in Layout::ALL {
        let rects = layout.calculate(AREA, 3, 0, Flip::none(), &resize);
        assert_tiles(&rects, AREA);
    }

    let columns = Layout::Columns.calculate(AREA, 3, 0, Flip::none(), &resize);
    assert_eq!(columns[0].width(), 840, "640 plus the 200 pixel delta");
    assert_eq!(columns[1].left, 840);
    assert_eq!(columns[2], Rect::new(1280, 0, 1920, 1080), "untouched");
}

#[test]
fn a_neighbours_near_edge_delta_moves_the_same_boundary() {
    let far = vec![Some(Rect::new(0, 0, 200, 0)), None];
    let near = vec![None, Some(Rect::new(200, 0, 0, 0))];
    assert_eq!(
        Layout::Columns.calculate(AREA, 2, 0, Flip::none(), &far),
        Layout::Columns.calculate(AREA, 2, 0, Flip::none(), &near)
    );
}

#[test]
fn resize_deltas_are_clamped() {
    let resize = vec![Some(Rect::new(0, 0, 100_000, 0)), None];
    let rects = Layout::Columns.calculate(AREA, 2, 0, Flip::none(), &resize);
    assert_tiles(&rects, AREA);
    assert!(rects[1].width() > 0, "the second column survives");
}

#[test]
fn short_and_absent_resize_slices_are_ignored() {
    for layout in Layout::ALL {
        let full = layout.calculate(AREA, 5, 0, Flip::none(), &[]);
        assert_eq!(layout.calculate(AREA, 5, 0, Flip::none(), &[None]), full);
        assert_eq!(
            layout.calculate(AREA, 5, 0, Flip::none(), &[None, None, None, None, None]),
            full
        );
    }
}

#[test]
fn layouts_cycle_in_both_directions_and_wrap() {
    assert_eq!(Layout::Bsp.cycle(CycleDirection::Next), Layout::Columns);
    assert_eq!(Layout::Bsp.cycle(CycleDirection::Previous), Layout::Grid);
    assert_eq!(Layout::Grid.cycle(CycleDirection::Next), Layout::Bsp);

    let mut layout = Layout::Bsp;
    for _ in 0..Layout::ALL.len() {
        layout = layout.cycle(CycleDirection::Next);
    }
    assert_eq!(layout, Layout::Bsp, "a full lap returns to the start");
}

#[test]
fn layouts_parse_from_cli_words() {
    assert_eq!(Layout::from_str("bsp"), Ok(Layout::Bsp));
    assert_eq!(Layout::from_str("BSP"), Ok(Layout::Bsp));
    assert_eq!(
        Layout::from_str("vertical-stack"),
        Ok(Layout::VerticalStack)
    );
    assert_eq!(
        Layout::from_str("ultrawide_vertical_stack"),
        Ok(Layout::UltrawideVerticalStack)
    );
    assert!(Layout::from_str("spiral").is_err());
    assert_eq!(Layout::Bsp.to_string(), "BSP");
}

#[test]
fn sizing_helpers() {
    assert_eq!(Sizing::Increase.signed(50), 50);
    assert_eq!(Sizing::Decrease.signed(50), -50);
    assert_eq!(Sizing::Increase.opposite(), Sizing::Decrease);
    assert_eq!(Sizing::from_str("increase"), Ok(Sizing::Increase));
    assert_eq!(Sizing::from_str("DECREASE"), Ok(Sizing::Decrease));
    assert!(Sizing::from_str("sideways").is_err());
    assert_eq!(Sizing::Increase.to_string(), "increase");
}

