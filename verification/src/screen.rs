//! Screen geometry and status of the player's view: where each part of the
//! screen goes, how many bands fit, and what the header says.
use ratatui::layout::{Constraint, Direction, Layout, Rect};
use ratatui::widgets::Block;
use vstd::prelude::*;

verus! {

/// A rectangle of terminal cells.
#[derive(Debug, Clone, Copy, PartialEq, Eq, Structural)]
pub struct Area {
    pub x: u16,
    pub y: u16,
    pub width: u16,
    pub height: u16,
}

/// A size rule for one row of a vertical layout.
#[derive(Debug, Clone, Copy, PartialEq, Eq, Structural)]
pub enum Rule {
    /// Exactly this many lines.
    Length(u16),
    /// At least this many lines.
    Min(u16),
}

/// The rows that ratatui's layout solver gives `area` split top to bottom by `rules`.
pub uninterp spec fn vertical_split(area: Area, rules: Seq<Rule>) -> Seq<Area>;

/// Calls ratatui's `Layout::split` on a vertical layout with the given rules
/// and no margin or spacing. Its result is named `vertical_split`; beyond that
/// the contract claims only what the source shows: one row per rule, each as
/// wide as `area` and at its left edge.
#[verifier::external_body]
fn split_vertically(area: Area, rules: &[Rule]) -> (rows: Vec<Area>)
    ensures
        rows@ == vertical_split(area, rules@),
        rows@.len() == rules@.len(),
        forall|i: int| 0 <= i < rows@.len() ==> #[trigger] rows@[i].x == area.x && rows@[i].width == area.width,
{
    let constraints = rules.iter().map(|r| match r {
        Rule::Length(n) => Constraint::Length(*n),
        Rule::Min(n) => Constraint::Min(*n),
    });
    let rect = Rect { x: area.x, y: area.y, width: area.width, height: area.height };
    let rows = Layout::default().direction(Direction::Vertical).constraints(constraints).split(rect);
    rows.iter().map(|r| Area { x: r.x, y: r.y, width: r.width, height: r.height }).collect()
}

/// The rules of the player's screen, top to bottom: header, spectrum,
/// progress gauge, key help.
pub open spec fn screen_rules() -> Seq<Rule> {
    seq![Rule::Length(3), Rule::Min(8), Rule::Length(3), Rule::Length(1)]
}

/// The screen has four rows, top to bottom: a header of three lines, the
/// spectrum taking at least eight, a progress gauge of three and one line of
/// key help.
pub proof fn lemma_screen_rules()
    ensures
        screen_rules().len() == 4,
        screen_rules()[0] == Rule::Length(3),
        screen_rules()[1] == Rule::Min(8),
        screen_rules()[2] == Rule::Length(3),
        screen_rules()[3] == Rule::Length(1),
{
}

/// The four parts of the player's screen.
#[derive(Debug, Clone, Copy, PartialEq, Eq, Structural)]
pub struct ScreenAreas {
    pub header: Area,
    pub spectrum: Area,
    pub progress: Area,
    pub help: Area,
}

/// Names the rows of a split made with `screen_rules`, top to bottom.
pub fn screen_areas_from(rows: &Vec<Area>) -> (areas: ScreenAreas)
    requires
        rows@.len() == 4,
    ensures
        areas.header == rows@[0],
        areas.spectrum == rows@[1],
        areas.progress == rows@[2],
        areas.help == rows@[3],
{
    ScreenAreas { header: rows[0], spectrum: rows[1], progress: rows[2], help: rows[3] }
}

/// Splits the terminal into header (3 lines), spectrum (at least 8), progress
/// gauge (3) and key help (1).
pub fn screen_areas(area: Area) -> (areas: ScreenAreas)
    ensures
        areas.header == vertical_split(area, screen_rules())[0],
        areas.spectrum == vertical_split(area, screen_rules())[1],
        areas.progress == vertical_split(area, screen_rules())[2],
        areas.help == vertical_split(area, screen_rules())[3],
        ({
            let rows = vertical_split(
                area,
                seq![Rule::Length(3), Rule::Min(8), Rule::Length(3), Rule::Length(1)],
            );
            &&& areas.header == rows[0]
            &&& areas.spectrum == rows[1]
            &&& areas.progress == rows[2]
            &&& areas.help == rows[3]
        }),
        areas.header.x == area.x && areas.header.width == area.width,
        areas.spectrum.x == area.x && areas.spectrum.width == area.width,
        areas.progress.x == area.x && areas.progress.width == area.width,
        areas.help.x == area.x && areas.help.width == area.width,
{
    let rules = [Rule::Length(3), Rule::Min(8), Rule::Length(3), Rule::Length(1)];
    assert(rules@ =~= screen_rules());
    let rows = split_vertically(area, &rules);
    assert(rows@[0].x == area.x && rows@[1].x == area.x && rows@[2].x == area.x && rows@[3].x
        == area.x);
    screen_areas_from(&rows)
}

/// `a + b` saturated at `u16::MAX`.
pub open spec fn sat_add(a: u16, b: u16) -> u16 {
    if a + b > u16::MAX {
        u16::MAX
    } else {
        (a + b) as u16
    }
}

/// `a - b` saturated at zero.
pub open spec fn sat_sub(a: u16, b: u16) -> u16 {
    if a >= b {
        (a - b) as u16
    } else {
        0
    }
}

/// What ratatui's `Block::inner` gives for a block with borders on all sides
/// and no padding: the area less one cell on each side.
pub open spec fn bordered_inner_spec(area: Area) -> Area {
    let x = sat_add(area.x, 1);
    let right = sat_add(area.x, area.width);
    let y = sat_add(area.y, 1);
    let bottom = sat_add(area.y, area.height);
    Area {
        x: if x < right {
            x
        } else {
            right
        },
        y: if y < bottom {
            y
        } else {
            bottom
        },
        width: sat_sub(sat_sub(area.width, 1), 1),
        height: sat_sub(sat_sub(area.height, 1), 1),
    }
}

/// Calls ratatui's `Block::inner` on `Block::bordered()` (borders on all four
/// sides, no padding). The contract restates the source of `Block::inner` for
/// that block: one cell off each side, saturating.
#[verifier::external_body]
fn bordered_inner(area: Area) -> (inner: Area)
    ensures
        inner == bordered_inner_spec(area),
{
    let rect = Rect { x: area.x, y: area.y, width: area.width, height: area.height };
    let r = Block::bordered().inner(rect);
    Area { x: r.x, y: r.y, width: r.width, height: r.height }
}

/// How the bars of the spectrum are laid out inside its frame.
#[derive(Debug, Clone, Copy, PartialEq, Eq, Structural)]
pub struct SpectrumGrid {
    /// The cells inside the frame.
    pub inner: Area,
    /// Text rows to draw, the top one first.
    pub rows: usize,
    /// Whether a blank column follows each bar.
    pub gap: bool,
}

/// The grid of bars for `bands` levels in a framed area, `None` where there is
/// nothing to draw (no room inside the frame, or no levels).
pub open spec fn spectrum_grid_spec(area: Area, bands: nat) -> Option<SpectrumGrid> {
    let inner = bordered_inner_spec(area);
    if inner.width == 0 || inner.height == 0 || bands == 0 {
        None
    } else {
        Some(SpectrumGrid { inner, rows: inner.height as usize, gap: inner.width >= 2 * bands })
    }
}

/// The bars fill every row inside the frame and nothing outside it; a blank
/// column follows each bar exactly when two columns a bar fit; there is
/// nothing to draw exactly when the frame leaves no room or there are no bars.
pub proof fn lemma_spectrum_grid_fills_frame(area: Area, bands: nat)
    ensures
        spectrum_grid_spec(area, bands) is None <==> (bordered_inner_spec(area).width == 0
            || bordered_inner_spec(area).height == 0 || bands == 0),
        spectrum_grid_spec(area, bands) matches Some(g) ==> g.inner == bordered_inner_spec(area)
            && g.rows == g.inner.height as usize && (g.gap <==> g.inner.width >= 2 * bands),
        area.width >= 2 && area.height >= 2 && area.x as int + area.width as int <= u16::MAX
            && area.y as int + area.height as int <= u16::MAX ==> bordered_inner_spec(area) == (Area {
            x: (area.x + 1) as u16,
            y: (area.y + 1) as u16,
            width: (area.width - 2) as u16,
            height: (area.height - 2) as u16,
        }),
{
}

/// Lays out `bands` bars in the spectrum's framed area.
pub fn spectrum_grid(area: Area, bands: usize) -> (grid: Option<SpectrumGrid>)
    ensures
        grid == spectrum_grid_spec(area, bands as nat),
        grid is None <==> (bordered_inner_spec(area).width == 0 || bordered_inner_spec(area).height
            == 0 || bands == 0),
        grid matches Some(g) ==> g.inner == bordered_inner_spec(area) && g.rows
            == g.inner.height as usize && (g.gap <==> g.inner.width >= 2 * bands),
{
    let inner = bordered_inner(area);
    if inner.width == 0 || inner.height == 0 || bands == 0 {
        None
    } else {
        let width = inner.width as usize;
        Some(SpectrumGrid { inner, rows: inner.height as usize, gap: bands <= width / 2 })
    }
}

/// Fewest bands drawn, whatever the terminal's width.
pub const MIN_DRAWN_BANDS: usize = 24;

/// Most bands drawn, whatever the terminal's width.
pub const MAX_DRAWN_BANDS: usize = 96;

/// Bands that fit a terminal `width` columns wide: two columns a band after a
/// margin of four, kept between `MIN_DRAWN_BANDS` and `MAX_DRAWN_BANDS`.
pub open spec fn bands_for_width(width: nat) -> nat {
    let fit: nat = if width >= 4 {
        ((width - 4) / 2) as nat
    } else {
        0
    };
    if fit < MIN_DRAWN_BANDS {
        MIN_DRAWN_BANDS as nat
    } else if fit > MAX_DRAWN_BANDS {
        MAX_DRAWN_BANDS as nat
    } else {
        fit
    }
}

/// The number of bands to draw on a terminal `width` columns wide.
pub fn band_count(width: u16) -> (bands: usize)
    ensures
        bands == bands_for_width(width as nat),
        MIN_DRAWN_BANDS <= bands <= MAX_DRAWN_BANDS,
        MIN_DRAWN_BANDS < bands < MAX_DRAWN_BANDS ==> 2 * bands + 4 <= width < 2 * bands + 6,
        width < 2 * MIN_DRAWN_BANDS + 6 ==> bands == MIN_DRAWN_BANDS,
        width >= 2 * MAX_DRAWN_BANDS + 4 ==> bands == MAX_DRAWN_BANDS,
{
    let fit = (width as usize).saturating_sub(4) / 2;
    if fit < MIN_DRAWN_BANDS {
        MIN_DRAWN_BANDS
    } else if fit > MAX_DRAWN_BANDS {
        MAX_DRAWN_BANDS
    } else {
        fit
    }
}

/// Two columns a band fit after a margin of four: between the bounds the band
/// count is the most bands that fit, `2 * bands + 4 <= width < 2 * bands + 6`;
/// a terminal too narrow for the fewest gets the fewest, one wide enough for
/// the most gets the most.
pub proof fn lemma_bands_fit_width(width: nat)
    ensures
        MIN_DRAWN_BANDS < bands_for_width(width) < MAX_DRAWN_BANDS ==> 2 * bands_for_width(width)
            + 4 <= width < 2 * bands_for_width(width) + 6,
        2 * MIN_DRAWN_BANDS + 4 <= width < 2 * MAX_DRAWN_BANDS + 4 ==> 2 * bands_for_width(width)
            + 4 <= width < 2 * bands_for_width(width) + 6,
        width < 2 * MIN_DRAWN_BANDS + 6 ==> bands_for_width(width) == MIN_DRAWN_BANDS,
        width >= 2 * MAX_DRAWN_BANDS + 4 ==> bands_for_width(width) == MAX_DRAWN_BANDS,
{
}

/// The band count stays within its bounds and never falls as the terminal widens.
pub proof fn lemma_band_count_bounded_monotone(narrow: nat, wide: nat)
    requires
        narrow <= wide,
    ensures
        MIN_DRAWN_BANDS <= bands_for_width(narrow) <= MAX_DRAWN_BANDS,
        bands_for_width(narrow) <= bands_for_width(wide),
{
}

/// What the header says about playback.
#[derive(Debug, Clone, Copy, PartialEq, Eq, Structural)]
pub enum PlaybackStatus {
    /// The track has played to its end.
    Finished,
    /// Playback is paused.
    Paused,
    /// The track is playing.
    Playing,
}

/// A finished track shows as finished whether paused or not.
pub open spec fn status_for(paused: bool, finished: bool) -> PlaybackStatus {
    if finished {
        PlaybackStatus::Finished
    } else if paused {
        PlaybackStatus::Paused
    } else {
        PlaybackStatus::Playing
    }
}

/// The status shown for a player that is `paused` and `finished` or not.
pub fn playback_status(paused: bool, finished: bool) -> (status: PlaybackStatus)
    ensures
        status == status_for(paused, finished),
        status == PlaybackStatus::Finished <==> finished,
        status == PlaybackStatus::Paused <==> (paused && !finished),
        status == PlaybackStatus::Playing <==> (!paused && !finished),
{
    if finished {
        PlaybackStatus::Finished
    } else if paused {
        PlaybackStatus::Paused
    } else {
        PlaybackStatus::Playing
    }
}

/// A finished track shows as finished whether paused or not; an unfinished
/// one shows paused exactly when it is paused, and playing otherwise.
pub proof fn lemma_status_precedence(paused: bool, finished: bool)
    ensures
        status_for(paused, finished) == PlaybackStatus::Finished <==> finished,
        status_for(paused, finished) == PlaybackStatus::Paused <==> (paused && !finished),
        status_for(paused, finished) == PlaybackStatus::Playing <==> (!paused && !finished),
{
}

impl PlaybackStatus {
    /// The word shown in the header.
    pub fn label(&self) -> (text: &'static str)
        ensures
            text@ == match *self {
                PlaybackStatus::Finished => "FINISHED"@,
                PlaybackStatus::Paused => "PAUSED"@,
                PlaybackStatus::Playing => "PLAYING"@,
            },
    {
        match self {
            PlaybackStatus::Finished => "FINISHED",
            PlaybackStatus::Paused => "PAUSED",
            PlaybackStatus::Playing => "PLAYING",
        }
    }
}

} // verus!
