//! What is drawn, and the drawing itself.
//!
//! The dashboard describes a widget by plain values ([`TabBar`], [`RowList`],
//! [`TextPanel`]). The functions at the end of this file hand such a description to
//! ratatui, which divides the screen and paints the cells of a frame.

use ratatui::layout::{Constraint, Direction, Layout, Rect};
use ratatui::style::{Color, Modifier, Style};
use ratatui::widgets::{Block, Borders, List, ListItem, Paragraph, Tabs};
use ratatui::Frame;
use vstd::prelude::*;

use crate::tui::text::{has_short_lines, has_short_runs, short_lines, short_runs};

verus! {

/// `ratatui::Frame`: the screen while it is being drawn.
#[verifier::external_type_specification]
#[verifier::external_body]
pub struct ExFrame<'a>(ratatui::Frame<'a>);

/// A rectangle of cells.
#[derive(Debug, Clone, Copy, PartialEq, Eq, Structural)]
pub struct Area {
    pub x: u16,
    pub y: u16,
    pub width: u16,
    pub height: u16,
}

impl Area {
    /// Whether every cell of this area belongs to `outer`.
    pub open spec fn inside(self, outer: Area) -> bool {
        &&& outer.x <= self.x
        &&& outer.y <= self.y
        &&& self.x + self.width <= outer.x + outer.width
        &&& self.y + self.height <= outer.y + outer.height
    }

    /// Whether the columns and rows of this area can be counted while it is drawn on.
    pub open spec fn countable(self) -> bool {
        &&& self.x + self.width <= u16::MAX
        &&& self.y + self.height <= u16::MAX
    }

    /// Where the area begins along an axis.
    pub open spec fn start(self, axis: Axis) -> int {
        match axis {
            Axis::Horizontal => self.x as int,
            Axis::Vertical => self.y as int,
        }
    }

    /// How long the area is along an axis.
    pub open spec fn extent(self, axis: Axis) -> int {
        match axis {
            Axis::Horizontal => self.width as int,
            Axis::Vertical => self.height as int,
        }
    }

    /// Where the area ends along an axis.
    pub open spec fn end(self, axis: Axis) -> int {
        self.start(axis) + self.extent(axis)
    }
}

/// The axis along which an area is divided.
#[derive(Debug, Clone, Copy, PartialEq, Eq, Structural)]
pub enum Axis {
    Horizontal,
    Vertical,
}

/// How much of an area one of its parts is to get.
#[derive(Debug, Clone, Copy, PartialEq, Eq, Structural)]
pub enum Share {
    Length(u16),
    Min(u16),
    Percentage(u16),
}

impl Share {
    /// The number that the share is given by.
    pub open spec fn amount(self) -> int {
        match self {
            Share::Length(n) => n as int,
            Share::Min(n) => n as int,
            Share::Percentage(n) => n as int,
        }
    }
}

/// The amounts of `shares`, added up.
pub open spec fn total(shares: Seq<Share>) -> int
    decreases shares.len(),
{
    if shares.len() == 0 {
        0
    } else {
        total(shares.drop_last()) + shares.last().amount()
    }
}

/// Whether one of `shares` takes the rest, and the others are fixed lengths.
pub open spec fn one_takes_the_rest(shares: Seq<Share>) -> bool {
    exists|rest: int|
        0 <= rest < shares.len() && (#[trigger] shares[rest]) is Min && forall|i: int|
            0 <= i < shares.len() && i != rest ==> (#[trigger] shares[i]) is Length
}

/// Whether `shares` leave little open along `extent` cells: they are percentages of the whole,
/// or fixed lengths and a part that takes the rest. Of the latter there are few enough where
/// they do not all fit, and the least rest can be told from a negative number in sixteen bits.
pub open spec fn shares_settled(shares: Seq<Share>, extent: int) -> bool {
    ||| {
        &&& total(shares) == 100
        &&& forall|i: int| 0 <= i < shares.len() ==> (#[trigger] shares[i]) is Percentage
    }
    ||| {
        &&& one_takes_the_rest(shares)
        &&& total(shares) <= extent || {
            &&& shares.len() <= 3
            &&& forall|i: int|
                0 <= i < shares.len() && (#[trigger] shares[i]) is Min ==> shares[i].amount()
                    <= i16::MAX
        }
    }
}

/// Whether `parts` meet `shares`: they follow one another from the beginning of `area` to its
/// end.
///
/// A part with a fixed length has that length, and where not all of the shares fit, no more.
/// There the part that takes the rest comes first, and has the least that it is to get or all
/// that there is.
///
/// The parts up to one that is given by a percentage end where their percentages say, rounded
/// to a cell, and a half is rounded up.
pub open spec fn shares_met(area: Area, axis: Axis, shares: Seq<Share>, parts: Seq<Area>) -> bool {
    let extent = area.extent(axis);
    &&& parts.len() == shares.len()
    &&& parts.first().start(axis) == area.start(axis)
    &&& parts.last().end(axis) == area.end(axis)
    &&& forall|i: int|
        0 < i < parts.len() ==> (#[trigger] parts[i]).start(axis) == parts[i - 1].end(axis)
    &&& forall|i: int|
        0 <= i < parts.len() && shares[i] is Length ==> {
            &&& (#[trigger] parts[i]).extent(axis) <= shares[i].amount()
            &&& total(shares) <= extent ==> parts[i].extent(axis) == shares[i].amount()
        }
    &&& forall|i: int|
        0 <= i < parts.len() && shares[i] is Min && total(shares) > extent ==> (
        #[trigger] parts[i]).extent(axis) == if shares[i].amount() < extent {
            shares[i].amount()
        } else {
            extent
        }
    &&& forall|i: int|
        0 <= i < parts.len() && shares[i] is Percentage ==> -50 < 100 * ((#[trigger] parts[i]).end(
            axis,
        ) - area.start(axis)) - total(shares.take(i + 1)) * extent <= 50
}

/// A colour other than the terminal's own.
#[derive(Debug, Clone, Copy, PartialEq, Eq, Structural)]
pub enum Hue {
    Cyan,
    DarkGray,
    Yellow,
}

/// How heavily a text is painted.
#[derive(Debug, Clone, Copy, PartialEq, Eq, Structural)]
pub enum Weight {
    Normal,
    Bold,
}

/// Which sides of a box are drawn.
#[derive(Debug, Clone, Copy, PartialEq, Eq, Structural)]
pub enum Edges {
    All,
}

/// A row of labels in a box, one of them selected and painted in `highlight` and `weight`.
#[derive(Debug)]
pub struct TabBar {
    pub title: String,
    pub edges: Edges,
    pub labels: Vec<String>,
    pub selected: usize,
    pub highlight: Hue,
    pub weight: Weight,
}

/// What a [`TabBar`] is.
pub struct TabBarView {
    pub title: Seq<char>,
    pub edges: Edges,
    pub labels: Seq<Seq<char>>,
    pub selected: int,
    pub highlight: Hue,
    pub weight: Weight,
}

impl View for TabBar {
    type V = TabBarView;

    open spec fn view(&self) -> TabBarView {
        TabBarView {
            title: self.title@,
            edges: self.edges,
            labels: self.labels@.map_values(|label: String| label@),
            selected: self.selected as int,
            highlight: self.highlight,
            weight: self.weight,
        }
    }
}

/// One row of a list, painted in `highlight` if it has one.
#[derive(Debug)]
pub struct ListRow {
    pub text: String,
    pub highlight: Option<Hue>,
    pub weight: Weight,
}

/// What a [`ListRow`] is.
pub struct ListRowView {
    pub text: Seq<char>,
    pub highlight: Option<Hue>,
    pub weight: Weight,
}

impl View for ListRow {
    type V = ListRowView;

    open spec fn view(&self) -> ListRowView {
        ListRowView { text: self.text@, highlight: self.highlight, weight: self.weight }
    }
}

/// Rows in a box with a title.
#[derive(Debug)]
pub struct RowList {
    pub title: String,
    pub edges: Edges,
    pub border: Option<Hue>,
    pub rows: Vec<ListRow>,
}

/// What a [`RowList`] is.
pub struct RowListView {
    pub title: Seq<char>,
    pub edges: Edges,
    pub border: Option<Hue>,
    pub rows: Seq<ListRowView>,
}

impl View for RowList {
    type V = RowListView;

    open spec fn view(&self) -> RowListView {
        RowListView {
            title: self.title@,
            edges: self.edges,
            border: self.border,
            rows: self.rows@.map_values(|row: ListRow| row@),
        }
    }
}

/// A text in a box, shown from line `scroll` on.
#[derive(Debug)]
pub struct TextPanel {
    pub title: Option<String>,
    pub edges: Edges,
    pub border: Option<Hue>,
    pub hue: Option<Hue>,
    pub text: String,
    pub scroll: u16,
}

/// What a [`TextPanel`] is.
pub struct TextPanelView {
    pub title: Option<Seq<char>>,
    pub edges: Edges,
    pub border: Option<Hue>,
    pub hue: Option<Hue>,
    pub text: Seq<char>,
    pub scroll: int,
}

impl View for TextPanel {
    type V = TextPanelView;

    open spec fn view(&self) -> TextPanelView {
        TextPanelView {
            title: match self.title {
                Some(title) => Some(title@),
                None => None,
            },
            edges: self.edges,
            border: self.border,
            hue: self.hue,
            text: self.text@,
            scroll: self.scroll as int,
        }
    }
}

/// Up to how many characters the title of a box may have.
pub const TITLE_LIMIT: usize = 1000;

/// Whether a box can be drawn in `area` of a frame that covers `bounds`.
pub open spec fn has_room(area: Area, bounds: Area) -> bool {
    bounds.countable() && area.inside(bounds)
}

/// Up to how many columns a box may have for lines of any length to be drawn in it.
///
/// Inside the box there are two columns fewer, and twice as many can still be counted in
/// sixteen bits.
pub const WIDE_LIMIT: u16 = 32_769;

impl TabBarView {
    /// Whether the labels can be drawn in `area` of a frame that covers `bounds`.
    pub open spec fn drawable(self, area: Area, bounds: Area) -> bool {
        &&& has_room(area, bounds)
        &&& self.title.len() <= TITLE_LIMIT
    }
}

impl RowListView {
    /// Whether the rows can be drawn in `area` of a frame that covers `bounds`.
    pub open spec fn drawable(self, area: Area, bounds: Area) -> bool {
        &&& has_room(area, bounds)
        &&& self.title.len() <= TITLE_LIMIT
    }
}

/// Whether the columns of `text` can be counted in sixteen bits while it is drawn in a box that
/// is `width` columns wide: the box is not very wide, or the lines of the text are short, or no
/// cluster of it is so wide that it could not be counted beyond the last column of the box.
///
/// A cluster takes at most two columns for the one character of it that stands alone, and three
/// for each of the others.
pub open spec fn columns_are_countable(text: Seq<char>, width: u16) -> bool {
    ||| width <= WIDE_LIMIT
    ||| has_short_lines(text)
    ||| has_short_runs(text, (u16::MAX - width) / 6)
}

/// Whether the columns of `text`, and its rows from `scroll` on, can be counted while it is
/// drawn in a box that takes up `area`, where there is room inside the box: the rows down to
/// the last one shown.
pub open spec fn text_is_countable(text: Seq<char>, scroll: int, area: Area) -> bool {
    ||| area.width <= 2
    ||| area.height <= 2
    ||| {
        &&& columns_are_countable(text, area.width)
        &&& area.y + area.height - 2 + scroll <= u16::MAX
    }
}

/// Tells whether the columns and rows of a text can be counted while it is drawn in a box.
pub(crate) fn text_can_be_counted(text: &str, scroll: u16, area: Area) -> (countable: bool)
    ensures
        countable == text_is_countable(text@, scroll as int, area),
{
    if area.width <= 2 || area.height <= 2 {
        return true;
    }
    let last_row: u32 = area.y as u32 + area.height as u32 - 2 + scroll as u32;
    last_row <= 0xffff && (area.width <= WIDE_LIMIT || short_lines(text) || short_runs(
        text,
        ((0xffff - area.width) / 6) as usize,
    ))
}

impl TextPanelView {
    /// Whether the text can be drawn in `area` of a frame that covers `bounds`.
    pub open spec fn drawable(self, area: Area, bounds: Area) -> bool {
        &&& has_room(area, bounds)
        &&& self.title matches Some(title) ==> title.len() <= TITLE_LIMIT
        &&& text_is_countable(self.text, self.scroll, area)
    }
}

/// The cells of a frame, row by row, each written out with its symbol, its colours and its
/// modifiers.
pub uninterp spec fn frame_cells(frame: Frame<'_>) -> Seq<Seq<char>>;

/// The area that a frame covers.
pub uninterp spec fn frame_area(frame: Frame<'_>) -> Area;

/// Whether `Layout::split` may divide `area` along `axis` into `parts` when they are to get
/// `shares`.
///
/// Where several divisions serve the shares equally well, which one is returned depends on
/// the order in which the solver walks its hash maps. So this holds of every division that
/// may come back, and does not single one out.
pub uninterp spec fn may_split(area: Area, axis: Axis, shares: Seq<Share>, parts: Seq<Area>) -> bool;

/// The cells of a frame that covers `bounds` after a tab bar was painted over `cells`.
pub uninterp spec fn tabs_painted(
    cells: Seq<Seq<char>>,
    bounds: Area,
    tabs: TabBarView,
    area: Area,
) -> Seq<Seq<char>>;

/// The cells of a frame that covers `bounds` after a list was painted over `cells`.
pub uninterp spec fn list_painted(
    cells: Seq<Seq<char>>,
    bounds: Area,
    list: RowListView,
    area: Area,
) -> Seq<Seq<char>>;

/// The cells of a frame that covers `bounds` after a text was painted over `cells`.
pub uninterp spec fn text_painted(
    cells: Seq<Seq<char>>,
    bounds: Area,
    panel: TextPanelView,
    area: Area,
) -> Seq<Seq<char>>;

/// `ratatui::Frame::area`: the area that the frame covers, which is also that of its cells.
#[verifier::external_body]
pub(crate) fn area_of(frame: &Frame<'_>) -> (area: Area)
    ensures
        area == frame_area(*frame),
{
    let Rect { x, y, width, height } = frame.area();
    Area { x, y, width, height }
}

/// `ratatui::layout::Layout::split`, with no margin and no spacing: there is one part for
/// each share, every part lies inside `area`, and spans it across the axis. Where the shares
/// leave little open, they are met as `shares_met` says. What they leave open is left to the
/// solver.
#[verifier::external_body]
pub(crate) fn split(area: Area, axis: Axis, shares: &Vec<Share>) -> (parts: Vec<Area>)
    ensures
        may_split(area, axis, shares@, parts@),
        parts@.len() == shares@.len(),
        area.countable() && shares_settled(shares@, area.extent(axis)) ==> shares_met(
            area,
            axis,
            shares@,
            parts@,
        ),
        forall|i: int| 0 <= i < parts@.len() ==> (#[trigger] parts@[i]).inside(area),
        axis == Axis::Vertical ==> forall|i: int|
            0 <= i < parts@.len() ==> (#[trigger] parts@[i]).x == area.x && parts@[i].width
                == area.width,
        axis == Axis::Horizontal ==> forall|i: int|
            0 <= i < parts@.len() ==> (#[trigger] parts@[i]).y == area.y && parts@[i].height
                == area.height,
{
    let direction = match axis {
        Axis::Horizontal => Direction::Horizontal,
        Axis::Vertical => Direction::Vertical,
    };
    let constraints = shares.iter().map(|share| match *share {
        Share::Length(n) => Constraint::Length(n),
        Share::Min(n) => Constraint::Min(n),
        Share::Percentage(n) => Constraint::Percentage(n),
    });
    let layout = Layout::default().direction(direction).constraints(constraints);
    let rects = layout.split(Rect { x: area.x, y: area.y, width: area.width, height: area.height });
    rects.iter().map(|r| Area { x: r.x, y: r.y, width: r.width, height: r.height }).collect()
}

/// `ratatui::Frame::render_widget` with a `ratatui::widgets::Tabs` in a `Block`: what the cells
/// are afterwards depends on what they were, on the frame's area, on the tab bar and on where
/// it is painted, and on nothing else. The frame still covers the same area.
#[verifier::external_body]
pub(crate) fn paint_tabs(frame: &mut Frame<'_>, tabs: &TabBar, area: Area)
    requires
        tabs@.drawable(area, frame_area(*old(frame))),
    ensures
        frame_area(*final(frame)) == frame_area(*old(frame)),
        frame_cells(*final(frame)) == tabs_painted(
            frame_cells(*old(frame)),
            frame_area(*old(frame)),
            tabs@,
            area,
        ),
{
    let color = match tabs.highlight {
        Hue::Cyan => Color::Cyan,
        Hue::DarkGray => Color::DarkGray,
        Hue::Yellow => Color::Yellow,
    };
    let modifier = match tabs.weight {
        Weight::Normal => Modifier::empty(),
        Weight::Bold => Modifier::BOLD,
    };
    let block = Block::default().borders(match tabs.edges { Edges::All => Borders::ALL });
    let widget = Tabs::new(tabs.labels.iter().map(|label| label.as_str()))
        .block(block.title(tabs.title.as_str()))
        .select(tabs.selected)
        .highlight_style(Style::from((color, modifier)));
    frame.render_widget(widget, Rect::new(area.x, area.y, area.width, area.height));
}

/// `ratatui::Frame::render_widget` with a `ratatui::widgets::List` in a `Block`: what the cells
/// are afterwards depends on what they were, on the frame's area, on the list and on where it
/// is painted, and on nothing else. The frame still covers the same area.
#[verifier::external_body]
pub(crate) fn paint_list(frame: &mut Frame<'_>, list: &RowList, area: Area)
    requires
        list@.drawable(area, frame_area(*old(frame))),
    ensures
        frame_area(*final(frame)) == frame_area(*old(frame)),
        frame_cells(*final(frame)) == list_painted(
            frame_cells(*old(frame)),
            frame_area(*old(frame)),
            list@,
            area,
        ),
{
    let style = |hue| Style::from(match hue {
        Hue::Cyan => Color::Cyan,
        Hue::DarkGray => Color::DarkGray,
        Hue::Yellow => Color::Yellow,
    });
    let items = list.rows.iter().map(|row| ListItem::new(&*row.text).style(
        row.highlight.map(style).unwrap_or_default().add_modifier(match row.weight {
            Weight::Normal => Modifier::empty(),
            Weight::Bold => Modifier::BOLD,
        })));
    frame.render_widget(List::new(items).block(Block::default().title(&*list.title)
        .borders(match list.edges { Edges::All => Borders::ALL })
        .border_style(list.border.map(style).unwrap_or_default())),
        Rect::new(area.x, area.y, area.width, area.height));
}

/// `ratatui::Frame::render_widget` with a `ratatui::widgets::Paragraph` in a `Block`: what the
/// cells are afterwards depends on what they were, on the frame's area, on the panel and on
/// where it is painted, and on nothing else. The frame still covers the same area.
#[verifier::external_body]
pub(crate) fn paint_text(frame: &mut Frame<'_>, panel: &TextPanel, area: Area)
    requires
        panel@.drawable(area, frame_area(*old(frame))),
    ensures
        frame_area(*final(frame)) == frame_area(*old(frame)),
        frame_cells(*final(frame)) == text_painted(
            frame_cells(*old(frame)),
            frame_area(*old(frame)),
            panel@,
            area,
        ),
{
    let style = |hue: Hue| Style::from(match hue {
        Hue::Cyan => Color::Cyan,
        Hue::DarkGray => Color::DarkGray,
        Hue::Yellow => Color::Yellow,
    });
    let border = panel.border.map(style).unwrap_or_default();
    let mut block = Block::default().borders(match panel.edges { Edges::All => Borders::ALL });
    if let Some(title) = &panel.title {
        block = block.title(title.as_str());
    }
    let widget = Paragraph::new(panel.text.as_str())
        .style(panel.hue.map(style).unwrap_or_default())
        .block(block.border_style(border))
        .scroll((panel.scroll, 0));
    frame.render_widget(widget, Rect::new(area.x, area.y, area.width, area.height));
}

} // verus!
