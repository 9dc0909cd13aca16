use hg_dashboard::layout::{
    LayoutSpec, Region, BOOKMARKS_ROW_PERCENT, BRANCHES_ROW_PERCENT, LEFT_COLUMN_PERCENT,
    OUTER_MARGIN, RIGHT_COLUMN_PERCENT, STATUS_ROW_PERCENT,
};
use hg_dashboard::ui::ActiveFrame;

fn region(x: u16, y: u16, width: u16, height: u16) -> Region {
    Region { x, y, width, height }
}

fn inside(part: &Region, outer: &Region) -> bool {
    part.width == 0
        || part.height == 0
        || (outer.x <= part.x
            && u32::from(part.x) + u32::from(part.width)
                <= u32::from(outer.x) + u32::from(outer.width)
            && outer.y <= part.y
            && u32::from(part.y) + u32::from(part.height)
                <= u32::from(outer.y) + u32::from(outer.height))
}

#[test]
fn layout_shares() {
    assert_eq!(OUTER_MARGIN, 1);
    assert_eq!(LEFT_COLUMN_PERCENT, 40);
    assert_eq!(RIGHT_COLUMN_PERCENT, 60);
    assert_eq!(STATUS_ROW_PERCENT, 60);
    assert_eq!(BRANCHES_ROW_PERCENT, 20);
    assert_eq!(BOOKMARKS_ROW_PERCENT, 20);
}

#[test]
fn clip_keeps_a_region_that_fits() {
    let outer = region(0, 0, 80, 24);
    assert_eq!(region(1, 1, 31, 13).clip(&outer), region(1, 1, 31, 13));
    assert_eq!(outer.clip(&outer), outer);
}

#[test]
fn clip_cuts_what_sticks_out() {
    let outer = region(10, 5, 20, 10);
    assert_eq!(region(0, 0, 15, 8).clip(&outer), region(10, 5, 5, 3));
    assert_eq!(region(25, 12, 100, 100).clip(&outer), region(25, 12, 5, 3));
    assert_eq!(region(0, 0, 200, 200).clip(&outer), outer);
}

#[test]
fn clip_of_a_region_elsewhere_is_empty() {
    let outer = region(0, 0, 10, 10);
    let part = region(50, 2, 5, 5).clip(&outer);
    assert_eq!(part, region(50, 2, 0, 5));
    let part = region(2, 50, 5, 5).clip(&outer);
    assert_eq!(part, region(2, 50, 5, 0));
}

#[test]
fn clip_at_the_far_corner() {
    let outer = region(65000, 65000, 535, 535);
    assert_eq!(region(65535, 65535, 65535, 65535).clip(&outer), region(65535, 65535, 0, 0));
    assert_eq!(region(65534, 65534, 65535, 65535).clip(&outer), region(65534, 65534, 1, 1));
}

#[test]
fn addressable_regions() {
    assert!(region(0, 0, 80, 24).check_addressable());
    assert!(region(0, 0, 0, 0).check_addressable());
    assert!(region(0, 0, 255, 257).check_addressable());
    assert!(region(0, 0, 65535, 1).check_addressable());
    assert!(!region(0, 0, 256, 256).check_addressable());
    assert!(!region(1, 0, 65535, 1).check_addressable());
    assert!(!region(0, 65535, 1, 1).check_addressable());
    assert!(!region(0, 0, 1000, 1000).check_addressable());
}

#[test]
fn assemble_assigns_rows_and_columns() {
    let area = region(0, 0, 102, 42);
    let layout = LayoutSpec::assemble(
        area,
        region(1, 1, 40, 24),
        region(1, 25, 40, 8),
        region(1, 33, 40, 8),
        region(41, 1, 60, 40),
    );
    assert_eq!(layout.status, region(1, 1, 40, 24));
    assert_eq!(layout.branches, region(1, 25, 40, 8));
    assert_eq!(layout.bookmarks, region(1, 33, 40, 8));
    assert_eq!(layout.log, region(41, 1, 60, 40));
    assert_eq!(layout.region(ActiveFrame::Status), layout.status);
    assert_eq!(layout.region(ActiveFrame::Branches), layout.branches);
    assert_eq!(layout.region(ActiveFrame::Bookmarks), layout.bookmarks);
    assert_eq!(layout.region(ActiveFrame::Log), layout.log);
}

#[test]
fn assemble_clips_to_the_area() {
    let area = region(0, 0, 50, 20);
    let layout = LayoutSpec::assemble(
        area,
        region(1, 1, 40, 24),
        region(1, 25, 40, 8),
        region(1, 33, 40, 8),
        region(41, 1, 60, 40),
    );
    assert_eq!(layout.status, region(1, 1, 40, 19));
    assert_eq!(layout.branches, region(1, 25, 40, 0));
    assert_eq!(layout.bookmarks, region(1, 33, 40, 0));
    assert_eq!(layout.log, region(41, 1, 9, 19));
}

#[test]
fn compute_divides_a_round_area() {
    let layout = LayoutSpec::compute(region(0, 0, 102, 42));
    assert_eq!(layout.status, region(1, 1, 40, 24));
    assert_eq!(layout.branches, region(1, 25, 40, 8));
    assert_eq!(layout.bookmarks, region(1, 33, 40, 8));
    assert_eq!(layout.log, region(41, 1, 60, 40));
}

#[test]
fn compute_divides_a_common_terminal() {
    let layout = LayoutSpec::compute(region(0, 0, 80, 24));
    assert_eq!(layout.status, region(1, 1, 31, 13));
    assert_eq!(layout.branches, region(1, 14, 31, 5));
    assert_eq!(layout.bookmarks, region(1, 19, 31, 4));
    assert_eq!(layout.log, region(32, 1, 47, 22));
}

#[test]
fn compute_respects_an_offset_area() {
    let layout = LayoutSpec::compute(region(10, 20, 102, 42));
    assert_eq!(layout.status, region(11, 21, 40, 24));
    assert_eq!(layout.branches, region(11, 45, 40, 8));
    assert_eq!(layout.bookmarks, region(11, 53, 40, 8));
    assert_eq!(layout.log, region(51, 21, 60, 40));
}

#[test]
fn compute_stays_inside_any_area() {
    let areas = [
        region(0, 0, 0, 0),
        region(0, 0, 1, 1),
        region(0, 0, 2, 2),
        region(0, 0, 3, 3),
        region(5, 7, 4, 9),
        region(0, 0, 80, 24),
        region(0, 0, 200, 60),
        region(0, 0, 65535, 1),
        region(0, 0, 1, 65535),
        region(65000, 65000, 535, 535),
    ];
    for area in areas {
        let layout = LayoutSpec::compute(area);
        for part in [layout.status, layout.branches, layout.bookmarks, layout.log] {
            assert!(inside(&part, &area));
        }
        assert_eq!(layout.status.x, layout.branches.x);
        assert_eq!(layout.status.x, layout.bookmarks.x);
        assert_eq!(layout.status.width, layout.branches.width);
        assert_eq!(layout.status.width, layout.bookmarks.width);
    }
}

#[test]
fn compute_leaves_nothing_in_an_area_without_room() {
    let layout = LayoutSpec::compute(region(0, 0, 1, 1));
    for part in [layout.status, layout.branches, layout.bookmarks, layout.log] {
        assert!(part.width == 0 || part.height == 0);
    }
}

#[test]
fn compute_keeps_the_panels_apart() {
    let areas = [
        region(0, 0, 0, 0),
        region(0, 0, 1, 1),
        region(0, 0, 3, 3),
        region(0, 0, 7, 5),
        region(5, 7, 4, 9),
        region(0, 0, 80, 24),
        region(3, 4, 33, 17),
        region(0, 0, 200, 60),
        region(0, 0, 65535, 1),
        region(65000, 65000, 535, 535),
    ];
    for area in areas {
        let layout = LayoutSpec::compute(area);
        let bottom = |part: &Region| u32::from(part.y) + u32::from(part.height);
        let right = |part: &Region| u32::from(part.x) + u32::from(part.width);
        assert!(bottom(&layout.status) <= u32::from(layout.branches.y));
        assert!(bottom(&layout.branches) <= u32::from(layout.bookmarks.y));
        assert!(right(&layout.status) <= u32::from(layout.log.x));
    }
}

#[test]
fn compute_fills_the_inner_area() {
    let layout = LayoutSpec::compute(region(0, 0, 80, 24));
    assert_eq!(layout.status.y, 1);
    assert_eq!(layout.status.y + layout.status.height, layout.branches.y);
    assert_eq!(layout.branches.y + layout.branches.height, layout.bookmarks.y);
    assert_eq!(layout.bookmarks.y + layout.bookmarks.height, 23);
    assert_eq!(layout.status.x + layout.status.width, layout.log.x);
    assert_eq!(layout.log.x + layout.log.width, 79);
    assert_eq!((layout.log.y, layout.log.height), (1, 22));
}
