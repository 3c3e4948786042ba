//! Frame composition: everything the draw path decides, as plain data.
//! Each cycle paints one full frame: a bordered container over the whole
//! drawable area, a centered bold title in the accent color, and the
//! current screen over the interior. Composing the plan is pure; painting
//! the plan onto the terminal is the backend's job, outside this library.

use vstd::prelude::*;
use vstd::string::StringExecFns;
use crate::state::Screen;

verus! {

/// A rectangle of terminal cells: the drawable area, or a region of it.
#[derive(Clone, Copy, Debug, PartialEq, Eq, Structural)]
pub struct Rect {
    pub x: u16,
    pub y: u16,
    pub width: u16,
    pub height: u16,
}

/// One more than `v`, stopping at the largest cell coordinate.
pub open spec fn sat_inc(v: u16) -> u16 {
    if v == u16::MAX {
        v
    } else {
        (v + 1) as u16
    }
}

/// The interior of a bordered container over `area`: one cell in from each
/// side, and empty along an axis too narrow to hold both border cells.
pub open spec fn inner_spec(area: Rect) -> Rect {
    Rect {
        x: if area.width >= 2 { sat_inc(area.x) } else { area.x },
        y: if area.height >= 2 { sat_inc(area.y) } else { area.y },
        width: if area.width >= 2 { (area.width - 2) as u16 } else { 0 },
        height: if area.height >= 2 { (area.height - 2) as u16 } else { 0 },
    }
}

impl Rect {
    /// The region a one-cell border on every side leaves free.
    pub fn inner(self) -> (r: Rect)
        ensures
            r == inner_spec(self),
    {
        Rect {
            x: if self.width >= 2 && self.x < u16::MAX { self.x + 1 } else { self.x },
            y: if self.height >= 2 && self.y < u16::MAX { self.y + 1 } else { self.y },
            width: if self.width >= 2 { self.width - 2 } else { 0 },
            height: if self.height >= 2 { self.height - 2 } else { 0 },
        }
    }
}

/// Where a line of text sits within the width it is drawn into.
#[derive(Clone, Copy, Debug, PartialEq, Eq, Structural)]
pub enum Alignment {
    Left,
    Center,
    Right,
}

/// How the container's title is drawn. It is always centered, bold, and
/// in the interface's accent color; the fields record that decision so a
/// backend paints it without choices of its own.
#[derive(Clone, Copy, Debug, PartialEq, Eq, Structural)]
pub struct TitleStyle {
    pub alignment: Alignment,
    pub bold: bool,
    pub accent: bool,
}

/// One composed frame, ready to paint: the bordered container fills
/// `area`, the title sits in its top border, and `screen` paints
/// `interior` — everything inside the border, so no cell of a prior
/// frame survives.
pub struct FramePlan {
    pub area: Rect,
    pub title: String,
    pub style: TitleStyle,
    pub interior: Rect,
    pub screen: Screen,
}

/// The title line: the product name, one space, and the version string.
pub open spec fn title_spec(version: Seq<char>) -> Seq<char> {
    "PHP DocBook "@ + version
}

/// What the one frame for a given screen, area and version looks like.
/// Composition is deterministic: no hidden layout state feeds into it.
pub open spec fn is_frame_for(
    plan: FramePlan,
    screen: Screen,
    area: Rect,
    version: Seq<char>,
) -> bool {
    &&& plan.area == area
    &&& plan.title@ == title_spec(version)
    &&& plan.style == (TitleStyle { alignment: Alignment::Center, bold: true, accent: true })
    &&& plan.interior == inner_spec(area)
    &&& plan.screen == screen
}

/// Builds the title line for this build's version string.
pub fn title_text(version: &str) -> (t: String)
    ensures
        t@ == title_spec(version@),
{
    let prefix = String::from_str("PHP DocBook ");
    prefix.concat(version)
}

/// Composes the next frame from the current screen, the drawable area and
/// the version string. Pure in its inputs: errors can only arise later,
/// when a backend paints the plan.
pub fn compose_frame(screen: Screen, area: Rect, version: &str) -> (plan: FramePlan)
    ensures
        is_frame_for(plan, screen, area, version@),
{
    FramePlan {
        area,
        title: title_text(version),
        style: TitleStyle { alignment: Alignment::Center, bold: true, accent: true },
        interior: area.inner(),
        screen,
    }
}

/// Rendering is idempotent: two frames composed from the same screen, the
/// same area and the same version agree cell for cell — same container,
/// identical title text and styling, same interior, same screen painting
/// it.
pub proof fn lemma_compose_idempotent(
    first: FramePlan,
    second: FramePlan,
    screen: Screen,
    area: Rect,
    version: Seq<char>,
)
    requires
        is_frame_for(first, screen, area, version),
        is_frame_for(second, screen, area, version),
    ensures
        first.area == second.area,
        first.title@ == second.title@,
        first.style == second.style,
        first.interior == second.interior,
        first.screen == second.screen,
{
}

} // verus!
