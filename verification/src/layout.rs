//! Screen geometry shared by drawing and hit-testing, so what you see is what
//! you can tap.

use vstd::prelude::*;

use crate::geometry::{Point, Rectangle, Size};
use crate::settings::SettingsButton;
use crate::timer::{RowButton, TimerButton};

verus! {

/// The smallest touch target, in pixels on a side.
pub const MIN_TARGET: u32 = 48;

/// The rectangle at (`x`, `y`), `w` wide and `h` tall.
pub open spec fn rect(x: i32, y: i32, w: u32, h: u32) -> Rectangle {
    Rectangle { top_left: Point { x, y }, size: Size { width: w, height: h } }
}

/// An app the Launcher opens.
#[derive(Clone, Copy, Debug, PartialEq, Eq, Structural, Hash)]
pub enum Tile {
    Timer,
    Settings,
}

/// Something on screen that a tap can land on.
#[derive(Clone, Copy, Debug, PartialEq, Eq, Structural, Hash)]
pub enum Target {
    Wade,
    Apps,
    Back,
    Tile(Tile),
    Timer(TimerButton),
    Settings(SettingsButton),
}

pub open spec fn screen_spec() -> Rectangle {
    rect(0, 0, 320, 240)
}

pub open spec fn wade_face_spec() -> Rectangle {
    rect(48, 36, 224, 168)
}

pub open spec fn back_spec() -> Rectangle {
    rect(0, 0, 48, 48)
}

pub open spec fn apps_spec() -> Rectangle {
    rect(272, 192, 48, 48)
}

pub open spec fn title_spec() -> Rectangle {
    rect(272, 0, 48, 48)
}

/// The free bottom-left corner.
pub open spec fn spare_corner_spec() -> Rectangle {
    rect(0, 192, 48, 48)
}

pub open spec fn timer_digits_spec() -> Rectangle {
    rect(0, 48, 320, 88)
}

pub open spec fn timer_row_spec() -> Seq<Rectangle> {
    seq![rect(8, 136, 72, 56), rect(96, 136, 128, 56), rect(240, 136, 72, 56)]
}

pub open spec fn grid_spec() -> Seq<Rectangle> {
    seq![rect(64, 24, 88, 88), rect(168, 24, 88, 88), rect(64, 128, 88, 88), rect(168, 128, 88, 88)]
}

/// The four corners, reserved for navigation on every screen: back top-left,
/// apps bottom-right. Nothing else takes touches there.
pub open spec fn nav_corners_spec() -> Seq<Rectangle> {
    seq![back_spec(), title_spec(), spare_corner_spec(), apps_spec()]
}

/// Where each tile of the Launcher sits: apps fill the grid from the top left,
/// and Settings always takes the bottom right.
pub open spec fn tile_area(tile: Tile) -> Rectangle {
    match tile {
        Tile::Timer => grid_spec()[0],
        Tile::Settings => grid_spec()[3],
    }
}

/// The whole screen.
#[verifier::when_used_as_spec(screen_spec)]
pub fn screen() -> (r: Rectangle)
    ensures
        r == screen_spec(),
{
    Rectangle::new(Point::new(0, 0), Size::new(320, 240))
}

/// Center of Wade's face on the Buddy screen.
pub fn wade_center() -> (p: Point)
    ensures
        p == (Point { x: 160, y: 120 }),
{
    Point::new(160, 120)
}

/// Wade's hit area: his eyes and the space around them, clear of the
/// navigation corners.
#[verifier::when_used_as_spec(wade_face_spec)]
pub fn wade_face() -> (r: Rectangle)
    ensures
        r == wade_face_spec(),
{
    Rectangle::new(Point::new(48, 36), Size::new(224, 168))
}

/// The back button, top-left on every app screen.
#[verifier::when_used_as_spec(back_spec)]
pub fn back() -> (r: Rectangle)
    ensures
        r == back_spec(),
{
    Rectangle::new(Point::new(0, 0), Size::new(48, 48))
}

/// The apps button, bottom-right on the Buddy screen.
#[verifier::when_used_as_spec(apps_spec)]
pub fn apps() -> (r: Rectangle)
    ensures
        r == apps_spec(),
{
    Rectangle::new(Point::new(272, 192), Size::new(48, 48))
}

/// Where an app screen's title icon sits: the top-right corner, which takes
/// no touches.
#[verifier::when_used_as_spec(title_spec)]
pub fn title() -> (r: Rectangle)
    ensures
        r == title_spec(),
{
    Rectangle::new(Point::new(272, 0), Size::new(48, 48))
}

/// The four navigation corners: back, title, the spare bottom-left, apps.
pub fn nav_corners() -> (r: [Rectangle; 4])
    ensures
        r@ == nav_corners_spec(),
{
    let r = [back(), title(), Rectangle::new(Point::new(0, 192), Size::new(48, 48)), apps()];
    assert(r@ =~= nav_corners_spec());
    r
}

/// The band the timer's digits are centered in, between the title and the buttons.
#[verifier::when_used_as_spec(timer_digits_spec)]
pub fn timer_digits() -> (r: Rectangle)
    ensures
        r == timer_digits_spec(),
{
    Rectangle::new(Point::new(0, 48), Size::new(320, 88))
}

/// The timer's row of buttons: left, center, and right, above the bottom corners.
pub fn timer_row() -> (r: [Rectangle; 3])
    ensures
        r@ == timer_row_spec(),
{
    let r = [
        Rectangle::new(Point::new(8, 136), Size::new(72, 56)),
        Rectangle::new(Point::new(96, 136), Size::new(128, 56)),
        Rectangle::new(Point::new(240, 136), Size::new(72, 56)),
    ];
    assert(r@ =~= timer_row_spec());
    r
}

/// The Launcher's tiles and their slots, in the order they are drawn.
pub fn tiles() -> (r: [(Tile, Rectangle); 2])
    ensures
        r@ == seq![(Tile::Timer, tile_area(Tile::Timer)), (Tile::Settings, tile_area(Tile::Settings))],
{
    let r = [
        (Tile::Timer, Rectangle::new(Point::new(64, 24), Size::new(88, 88))),
        (Tile::Settings, Rectangle::new(Point::new(168, 128), Size::new(88, 88))),
    ];
    assert(r@ =~= seq![
        (Tile::Timer, tile_area(Tile::Timer)),
        (Tile::Settings, tile_area(Tile::Settings)),
    ]);
    r
}

/// The target under `p` on the Buddy screen: the apps button, then Wade.
pub open spec fn hit_buddy_spec(p: Point) -> Option<Target> {
    if apps_spec().covers(p) {
        Some(Target::Apps)
    } else if wade_face_spec().covers(p) {
        Some(Target::Wade)
    } else {
        None
    }
}

/// The target under `p` on the Launcher: back, then the tiles.
pub open spec fn hit_launcher_spec(p: Point) -> Option<Target> {
    if back_spec().covers(p) {
        Some(Target::Back)
    } else if tile_area(Tile::Timer).covers(p) {
        Some(Target::Tile(Tile::Timer))
    } else if tile_area(Tile::Settings).covers(p) {
        Some(Target::Tile(Tile::Settings))
    } else {
        None
    }
}

/// The target under `p` on the Settings screen: only back.
pub open spec fn hit_settings_spec(p: Point) -> Option<Target> {
    if back_spec().covers(p) {
        Some(Target::Back)
    } else {
        None
    }
}

/// The row button in the first slot under `p`, if it is filled and enabled.
pub open spec fn row_hit(p: Point, row: Seq<Option<RowButton>>, slot: int) -> Option<Target>
    decreases 3 - slot,
{
    if slot >= 3 {
        None
    } else if timer_row_spec()[slot].covers(p) {
        match row[slot] {
            Some(b) => if b.enabled {
                Some(Target::Timer(b.button))
            } else {
                None
            },
            None => None,
        }
    } else {
        row_hit(p, row, slot + 1)
    }
}

/// A row hit is only ever one of the row's buttons.
pub proof fn lemma_row_hit_is_a_button(p: Point, row: Seq<Option<RowButton>>, slot: int)
    ensures
        row_hit(p, row, slot) matches Some(t) ==> t is Timer,
    decreases 3 - slot,
{
    if slot < 3 {
        lemma_row_hit_is_a_button(p, row, slot + 1);
    }
}

/// The target under `p` on the Timer screen, whose row holds `row`: back,
/// then the row's enabled buttons.
pub open spec fn hit_timer_spec(p: Point, row: Seq<Option<RowButton>>) -> Option<Target> {
    if back_spec().covers(p) {
        Some(Target::Back)
    } else {
        row_hit(p, row, 0)
    }
}

/// The target under `point` on the Buddy screen, if any.
pub fn hit_buddy(point: Point) -> (t: Option<Target>)
    ensures
        t == hit_buddy_spec(point),
{
    if apps().contains(point) {
        Some(Target::Apps)
    } else if wade_face().contains(point) {
        Some(Target::Wade)
    } else {
        None
    }
}

/// The target under `point` on the Launcher, if any.
pub fn hit_launcher(point: Point) -> (t: Option<Target>)
    ensures
        t == hit_launcher_spec(point),
{
    if back().contains(point) {
        return Some(Target::Back);
    }
    let tiles = tiles();
    let mut i: usize = 0;
    while i < 2
        invariant
            i <= 2,
            tiles@ == seq![
                (Tile::Timer, tile_area(Tile::Timer)),
                (Tile::Settings, tile_area(Tile::Settings)),
            ],
            !back_spec().covers(point),
            forall|j: int| 0 <= j < i ==> !(#[trigger] tiles@[j]).1.covers(point),
        decreases 2 - i,
    {
        let (tile, area) = tiles[i];
        if area.contains(point) {
            return Some(Target::Tile(tile));
        }
        i = i + 1;
    }
    None
}

/// The target under `point` on the Settings screen, if any.
pub fn hit_settings(point: Point) -> (t: Option<Target>)
    ensures
        t == hit_settings_spec(point),
{
    if back().contains(point) {
        Some(Target::Back)
    } else {
        None
    }
}

/// The target under `point` on the Timer screen, whose row holds `row`, if
/// any. Disabled buttons take no touches.
pub fn hit_timer(point: Point, row: [Option<RowButton>; 3]) -> (t: Option<Target>)
    ensures
        t == hit_timer_spec(point, row@),
{
    if back().contains(point) {
        return Some(Target::Back);
    }
    let slots = timer_row();
    let mut i: usize = 0;
    while i < 3
        invariant
            i <= 3,
            slots@ == timer_row_spec(),
            !back_spec().covers(point),
            row_hit(point, row@, 0) == row_hit(point, row@, i as int),
        decreases 3 - i,
    {
        if slots[i].contains(point) {
            return match row[i] {
                Some(button) => if button.enabled {
                    Some(Target::Timer(button.button))
                } else {
                    None
                },
                None => None,
            };
        }
        i = i + 1;
    }
    None
}

/// Every touch target is at least 48 pixels on a side.
pub proof fn lemma_targets_are_large_enough()
    ensures
        forall|r: Rectangle|
            (r == wade_face_spec() || r == apps_spec() || r == back_spec() || r == tile_area(
                Tile::Timer,
            ) || r == tile_area(Tile::Settings) || r == timer_row_spec()[0] || r
                == timer_row_spec()[1] || r == timer_row_spec()[2]) ==> r.size.width >= MIN_TARGET
                && r.size.height >= MIN_TARGET,
{
}

/// Nothing but the navigation buttons takes touches in the corners: Wade, the
/// Launcher's tiles and the timer's row are clear of all four, the apps button
/// is clear of the other three, and so is back.
pub proof fn lemma_targets_are_clear_of_the_corners()
    ensures
        forall|i: int|
            0 <= i < 4 ==> {
                let corner = #[trigger] nav_corners_spec()[i];
                &&& wade_face_spec().apart(corner)
                &&& tile_area(Tile::Timer).apart(corner)
                &&& tile_area(Tile::Settings).apart(corner)
                &&& timer_row_spec()[0].apart(corner)
                &&& timer_row_spec()[1].apart(corner)
                &&& timer_row_spec()[2].apart(corner)
                &&& i != 3 ==> apps_spec().apart(corner)
                &&& i != 0 ==> back_spec().apart(corner)
            },
{
    assert forall|i: int| 0 <= i < 4 implies {
        let corner = #[trigger] nav_corners_spec()[i];
        &&& wade_face_spec().apart(corner)
        &&& tile_area(Tile::Timer).apart(corner)
        &&& tile_area(Tile::Settings).apart(corner)
        &&& timer_row_spec()[0].apart(corner)
        &&& timer_row_spec()[1].apart(corner)
        &&& timer_row_spec()[2].apart(corner)
        &&& i != 3 ==> apps_spec().apart(corner)
        &&& i != 0 ==> back_spec().apart(corner)
    } by {
        let corner = nav_corners_spec()[i];
        assert forall|p: Point| !(#[trigger] wade_face_spec().covers(p) && corner.covers(p)) by {}
        assert forall|p: Point|
            !(#[trigger] tile_area(Tile::Timer).covers(p) && corner.covers(p)) by {}
        assert forall|p: Point|
            !(#[trigger] tile_area(Tile::Settings).covers(p) && corner.covers(p)) by {}
        assert forall|p: Point| !(#[trigger] timer_row_spec()[0].covers(p) && corner.covers(p)) by {}
        assert forall|p: Point| !(#[trigger] timer_row_spec()[1].covers(p) && corner.covers(p)) by {}
        assert forall|p: Point| !(#[trigger] timer_row_spec()[2].covers(p) && corner.covers(p)) by {}
        assert forall|p: Point| i != 3 implies !(#[trigger] apps_spec().covers(p) && corner.covers(p)) by {}
        assert forall|p: Point| i != 0 implies !(#[trigger] back_spec().covers(p) && corner.covers(p)) by {}
    }
}

/// The touch targets on one screen do not overlap, so a touch has at most one
/// meaning: Wade and the apps button on Buddy; back and the tiles on the
/// Launcher; back and the row's slots on the Timer screen.
pub proof fn lemma_targets_on_one_screen_do_not_overlap()
    ensures
        wade_face_spec().apart(apps_spec()),
        back_spec().apart(tile_area(Tile::Timer)),
        back_spec().apart(tile_area(Tile::Settings)),
        tile_area(Tile::Timer).apart(tile_area(Tile::Settings)),
        back_spec().apart(timer_row_spec()[0]),
        back_spec().apart(timer_row_spec()[1]),
        back_spec().apart(timer_row_spec()[2]),
        timer_row_spec()[0].apart(timer_row_spec()[1]),
        timer_row_spec()[0].apart(timer_row_spec()[2]),
        timer_row_spec()[1].apart(timer_row_spec()[2]),
{
    assert forall|p: Point| !(#[trigger] wade_face_spec().covers(p) && apps_spec().covers(p)) by {}
    assert forall|p: Point| !(#[trigger] back_spec().covers(p) && tile_area(Tile::Timer).covers(p)) by {}
    assert forall|p: Point|
        !(#[trigger] back_spec().covers(p) && tile_area(Tile::Settings).covers(p)) by {}
    assert forall|p: Point|
        !(#[trigger] tile_area(Tile::Timer).covers(p) && tile_area(Tile::Settings).covers(p)) by {}
    assert forall|p: Point| !(#[trigger] back_spec().covers(p) && timer_row_spec()[0].covers(p)) by {}
    assert forall|p: Point| !(#[trigger] back_spec().covers(p) && timer_row_spec()[1].covers(p)) by {}
    assert forall|p: Point| !(#[trigger] back_spec().covers(p) && timer_row_spec()[2].covers(p)) by {}
    assert forall|p: Point|
        !(#[trigger] timer_row_spec()[0].covers(p) && timer_row_spec()[1].covers(p)) by {}
    assert forall|p: Point|
        !(#[trigger] timer_row_spec()[0].covers(p) && timer_row_spec()[2].covers(p)) by {}
    assert forall|p: Point|
        !(#[trigger] timer_row_spec()[1].covers(p) && timer_row_spec()[2].covers(p)) by {}
}

/// A hit is always inside the area of the target it reports: what you see is
/// what you can tap.
pub proof fn lemma_hits_land_inside_their_targets(p: Point, row: Seq<Option<RowButton>>)
    requires
        row.len() == 3,
    ensures
        hit_buddy_spec(p) == Some(Target::Apps) ==> apps_spec().covers(p),
        hit_buddy_spec(p) == Some(Target::Wade) ==> wade_face_spec().covers(p),
        hit_launcher_spec(p) == Some(Target::Back) ==> back_spec().covers(p),
        hit_launcher_spec(p) matches Some(Target::Tile(t)) ==> tile_area(t).covers(p),
        hit_timer_spec(p, row) == Some(Target::Back) ==> back_spec().covers(p),
        hit_timer_spec(p, row) matches Some(Target::Timer(b)) ==> exists|i: int|
            0 <= i < 3 && #[trigger] timer_row_spec()[i].covers(p) && row[i] == Some(
                RowButton { button: b, enabled: true },
            ),
{
    reveal_with_fuel(row_hit, 4);
    match hit_timer_spec(p, row) {
        Some(Target::Timer(b)) => {
            if timer_row_spec()[0].covers(p) {
                assert(row[0] == Some(RowButton { button: b, enabled: true }));
            } else if timer_row_spec()[1].covers(p) {
                assert(row[1] == Some(RowButton { button: b, enabled: true }));
            } else {
                assert(timer_row_spec()[2].covers(p));
            }
        },
        _ => {},
    }
}

} // verus!
