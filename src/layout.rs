use vstd::prelude::*;
use ratatui::layout::{Constraint, Direction, Layout, Rect};
use crate::session::{Mode, ModeView};

verus! {

/// A rectangle of character cells.
#[derive(Clone, Copy, Debug, PartialEq, Eq, Structural)]
pub struct Area {
    pub x: u16,
    pub y: u16,
    pub width: u16,
    pub height: u16,
}

impl View for Area {
    type V = (u16, u16, u16, u16);

    open spec fn view(&self) -> (u16, u16, u16, u16) {
        (self.x, self.y, self.width, self.height)
    }
}

/// How much room a pane asks for along the axis being split.
#[derive(Clone, Copy, Debug, PartialEq, Eq, Structural)]
pub enum Extent {
    /// At least this many cells.
    Min(u16),
    /// Exactly this many cells.
    Length(u16),
}

impl View for Extent {
    /// Whether the extent is a minimum, and its number of cells.
    type V = (bool, u16);

    open spec fn view(&self) -> (bool, u16) {
        match self {
            Extent::Min(n) => (true, *n),
            Extent::Length(n) => (false, *n),
        }
    }
}

/// The axis along which an area is cut.
#[derive(Clone, Copy, Debug, PartialEq, Eq, Structural)]
pub enum Axis {
    Vertical,
    Horizontal,
}

pub open spec fn areas_view(s: Seq<Area>) -> Seq<(u16, u16, u16, u16)> {
    s.map_values(|a: Area| a@)
}

pub open spec fn extents_view(s: Seq<Extent>) -> Seq<(bool, u16)> {
    s.map_values(|e: Extent| e@)
}

/// The pieces that ratatui's layout solver cuts `area` into, along the
/// vertical axis or not, for the given extents.
pub uninterp spec fn split_of(
    area: (u16, u16, u16, u16),
    vertical: bool,
    extents: Seq<(bool, u16)>,
) -> Seq<(u16, u16, u16, u16)>;

/// Relies on ratatui's `Layout::split` (no margin): it gives one area per
/// constraint, in order, and depends on the area, the direction and the
/// constraints alone (its cache is keyed on all three).
#[verifier::external_body]
fn split_area(area: Area, axis: Axis, extents: &Vec<Extent>) -> (r: Vec<Area>)
    ensures
        r@.len() == extents@.len(),
        areas_view(r@) == split_of(area@, axis == Axis::Vertical, extents_view(extents@)),
{
    let direction = match axis {
        Axis::Vertical => Direction::Vertical,
        Axis::Horizontal => Direction::Horizontal,
    };
    let constraints = extents.iter().map(|e| match *e {
        Extent::Min(n) => Constraint::Min(n),
        Extent::Length(n) => Constraint::Length(n),
    });
    let rect = Rect { x: area.x, y: area.y, width: area.width, height: area.height };
    let parts = Layout::default().direction(direction).constraints(constraints).split(rect);
    parts.iter().map(|p| Area { x: p.x, y: p.y, width: p.width, height: p.height }).collect()
}

/// Where each pane of the screen goes; `None` for a pane not shown.
#[derive(Clone, Copy, Debug, PartialEq, Eq, Structural)]
pub struct Screen {
    pub list: Option<Area>,
    pub prompt: Option<Area>,
    pub help: Option<Area>,
    pub debug: Option<Area>,
}

/// Whether the prompt pane is shown in this mode.
pub open spec fn shows_prompt(mode: ModeView) -> bool {
    mode is AddingTask || mode is ConfirmingDelete
}

/// The rows of the screen from top to bottom: the main pane, then the prompt
/// pane and the debug pane where they are shown.
pub open spec fn row_extents(prompt: bool, debug: bool) -> Seq<(bool, u16)> {
    if prompt && debug {
        seq![(true, 8u16), (false, 3u16), (false, 8u16)]
    } else if prompt {
        seq![(true, 8u16), (false, 3u16)]
    } else if debug {
        seq![(true, 10u16), (false, 8u16)]
    } else {
        seq![(true, 0u16)]
    }
}

/// The columns of the main pane: an unused region, then the task list.
pub open spec fn column_extents() -> Seq<(bool, u16)> {
    seq![(true, 60u16), (false, 30u16)]
}

/// What [`compose`] gives for `area`.
pub open spec fn screen_of(
    area: (u16, u16, u16, u16),
    mode: ModeView,
    ui_visible: bool,
    debug: bool,
) -> (
    Option<(u16, u16, u16, u16)>,
    Option<(u16, u16, u16, u16)>,
    Option<(u16, u16, u16, u16)>,
    Option<(u16, u16, u16, u16)>,
) {
    let rows = split_of(area, true, row_extents(shows_prompt(mode), debug));
    let main = rows[0];
    (
        if ui_visible {
            Some(split_of(main, false, column_extents())[1])
        } else {
            None
        },
        if shows_prompt(mode) {
            Some(rows[1])
        } else {
            None
        },
        if mode is ShowingHelp {
            Some(main)
        } else {
            None
        },
        if debug {
            Some(rows[if shows_prompt(mode) { 2int } else { 1int }])
        } else {
            None
        },
    )
}

pub open spec fn opt_view(a: Option<Area>) -> Option<(u16, u16, u16, u16)> {
    match a {
        Some(x) => Some(x@),
        None => None,
    }
}

impl Screen {
    pub open spec fn view(&self) -> (
        Option<(u16, u16, u16, u16)>,
        Option<(u16, u16, u16, u16)>,
        Option<(u16, u16, u16, u16)>,
        Option<(u16, u16, u16, u16)>,
    ) {
        (opt_view(self.list), opt_view(self.prompt), opt_view(self.help), opt_view(self.debug))
    }
}

/// Splits the screen `area` into panes: top to bottom the main pane, the
/// prompt pane (while a task is typed or a deletion waits for confirmation)
/// and the debug pane (with the debug flag). The task list, when visible,
/// takes the right-hand column of the main pane; help covers the main pane.
pub fn compose(area: Area, mode: &Mode, ui_visible: bool, debug: bool) -> (r: Screen)
    ensures
        r.view() == screen_of(area@, mode@, ui_visible, debug),
{
    let prompt = match mode {
        Mode::AddingTask { .. } | Mode::ConfirmingDelete => true,
        _ => false,
    };
    let mut rows: Vec<Extent> = Vec::new();
    if prompt {
        rows.push(Extent::Min(8));
        rows.push(Extent::Length(3));
    } else if debug {
        rows.push(Extent::Min(10));
    } else {
        rows.push(Extent::Min(0));
    }
    if debug {
        rows.push(Extent::Length(8));
    }
    proof {
        assert(extents_view(rows@) =~= row_extents(prompt, debug));
    }
    let chunks = split_area(area, Axis::Vertical, &rows);
    let main = chunks[0];
    proof {
        assert(chunks@[0]@ == areas_view(chunks@)[0]);
    }
    let list = if ui_visible {
        let columns = vec![Extent::Min(60), Extent::Length(30)];
        proof {
            assert(extents_view(columns@) =~= column_extents());
        }
        let cols = split_area(main, Axis::Horizontal, &columns);
        proof {
            assert(cols@[1]@ == areas_view(cols@)[1]);
        }
        Some(cols[1])
    } else {
        None
    };
    let prompt_area = if prompt {
        proof {
            assert(chunks@[1]@ == areas_view(chunks@)[1]);
        }
        Some(chunks[1])
    } else {
        None
    };
    let help = match mode {
        Mode::ShowingHelp => Some(main),
        _ => None,
    };
    let debug_area = if debug {
        let i: usize = if prompt {
            2
        } else {
            1
        };
        proof {
            assert(chunks@[i as int]@ == areas_view(chunks@)[i as int]);
        }
        Some(chunks[i])
    } else {
        None
    };
    Screen { list, prompt: prompt_area, help, debug: debug_area }
}

} // verus!
