//! One frame, fetched once and written once.
use vstd::prelude::*;

use crate::error::{AppError, ProviderError, RenderError, SanitizedCause};
use crate::model::{HistoryRequest, HistoryRequestKind, Market, ProviderCapabilities, Timeframe};
use crate::text::{chars_of, u64_text};

verus! {

pub const SNAPSHOT_HISTORY_LIMIT: u16 = 500;

pub const NON_TTY_SNAPSHOT_WIDTH: u16 = 120;

pub const NON_TTY_SNAPSHOT_HEIGHT: u16 = 36;

/// How many columns and rows a frame has.
#[derive(Clone, Copy, Debug, PartialEq, Eq, Structural)]
pub struct FrameSize {
    pub width: u16,
    pub height: u16,
}

/// Output capability metadata supplied by the caller after its own capability detection.
#[derive(Clone, Copy, Debug, PartialEq, Eq, Structural)]
pub enum SnapshotOutputTarget {
    /// An inline terminal frame. One physical row is reserved for the shell prompt.
    Tty { physical_size: FrameSize },
    /// A deterministic plain-text frame independent of the surrounding process environment.
    NonTty,
}

#[derive(Clone, Copy, Debug, PartialEq, Eq, Structural)]
pub enum RenderPolicy {
    Color,
    StyleFree,
}

impl SnapshotOutputTarget {
    pub open spec fn frame_size(self) -> FrameSize {
        match self {
            SnapshotOutputTarget::Tty { physical_size } => FrameSize {
                width: physical_size.width,
                height: if physical_size.height == 0 {
                    0
                } else {
                    (physical_size.height - 1) as u16
                },
            },
            SnapshotOutputTarget::NonTty => FrameSize {
                width: NON_TTY_SNAPSHOT_WIDTH,
                height: NON_TTY_SNAPSHOT_HEIGHT,
            },
        }
    }

    pub fn effective_size(self) -> (size: FrameSize)
        ensures
            size == self.frame_size(),
    {
        match self {
            SnapshotOutputTarget::Tty { physical_size } => FrameSize {
                width: physical_size.width,
                height: if physical_size.height == 0 {
                    0
                } else {
                    physical_size.height - 1
                },
            },
            SnapshotOutputTarget::NonTty => FrameSize {
                width: NON_TTY_SNAPSHOT_WIDTH,
                height: NON_TTY_SNAPSHOT_HEIGHT,
            },
        }
    }
}

/// What keeps a provider from being asked for a market's history.
pub open spec fn history_fault(
    offered: ProviderCapabilities,
    market: Market,
    timeframe: Timeframe,
) -> Option<&'static str> {
    if !offered.markets@.contains(market) {
        Some("provider does not support market")
    } else if !offered.timeframes@.contains(timeframe) {
        Some("provider does not support timeframe")
    } else if offered.history_page_limit == 0 {
        Some("provider history page limit must be non-zero")
    } else {
        None
    }
}

/// As many rows as a snapshot wants, or as a page has.
pub open spec fn wanted_rows(page_limit: u16) -> u16 {
    if page_limit < SNAPSHOT_HISTORY_LIMIT {
        page_limit
    } else {
        SNAPSHOT_HISTORY_LIMIT
    }
}

fn offers_market(offered: &ProviderCapabilities, market: Market) -> (found: bool)
    ensures
        found == offered.markets@.contains(market),
{
    let mut index: usize = 0;
    while index < offered.markets.len()
        invariant
            index <= offered.markets@.len(),
            forall|i: int| 0 <= i < index ==> #[trigger] offered.markets@[i] != market,
        decreases offered.markets@.len() - index,
    {
        if offered.markets[index] == market {
            return true;
        }
        index += 1;
    }
    false
}

fn offers_timeframe(offered: &ProviderCapabilities, timeframe: Timeframe) -> (found: bool)
    ensures
        found == offered.timeframes@.contains(timeframe),
{
    let mut index: usize = 0;
    while index < offered.timeframes.len()
        invariant
            index <= offered.timeframes@.len(),
            forall|i: int| 0 <= i < index ==> #[trigger] offered.timeframes@[i] != timeframe,
        decreases offered.timeframes@.len() - index,
    {
        if offered.timeframes[index] == timeframe {
            return true;
        }
        index += 1;
    }
    false
}

pub fn history_request_limit(
    offered: &ProviderCapabilities,
    market: Market,
    timeframe: Timeframe,
) -> (limit: Result<u16, ProviderError>)
    ensures
        limit == (match history_fault(*offered, market, timeframe) {
            Some(detail) => Err::<u16, ProviderError>(ProviderError::Configuration(detail)),
            None => Ok(wanted_rows(offered.history_page_limit)),
        }),
{
    if !offers_market(offered, market) {
        return Err(ProviderError::Configuration("provider does not support market"));
    }
    if !offers_timeframe(offered, timeframe) {
        return Err(ProviderError::Configuration("provider does not support timeframe"));
    }
    if offered.history_page_limit == 0 {
        return Err(ProviderError::Configuration("provider history page limit must be non-zero"));
    }
    if offered.history_page_limit < SNAPSHOT_HISTORY_LIMIT {
        Ok(offered.history_page_limit)
    } else {
        Ok(SNAPSHOT_HISTORY_LIMIT)
    }
}

/// What a snapshot is to be: its size, and the history to ask for.
#[derive(Clone, Copy, Debug, PartialEq, Eq, Structural)]
pub struct SnapshotPlan {
    pub effective_size: FrameSize,
    pub request: HistoryRequest,
}

/// Whether a target cannot be written to in a style.
pub open spec fn style_fault(target: SnapshotOutputTarget, policy: RenderPolicy) -> Option<
    RenderError,
> {
    if target == SnapshotOutputTarget::NonTty && policy != RenderPolicy::StyleFree {
        Some(RenderError::Invariant("non-TTY snapshot output must be style-free"))
    } else {
        None
    }
}

/// Checks the style of an output before a provider is asked for anything.
pub fn check_style(target: SnapshotOutputTarget, policy: RenderPolicy) -> (checked: Result<
    (),
    AppError,
>)
    ensures
        checked == (match style_fault(target, policy) {
            Some(error) => Err::<(), AppError>(AppError::Render(error)),
            None => Ok(()),
        }),
{
    if target == SnapshotOutputTarget::NonTty && policy != RenderPolicy::StyleFree {
        return Err(
            AppError::Render(RenderError::Invariant("non-TTY snapshot output must be style-free")),
        );
    }
    Ok(())
}

/// Plans a snapshot before anything is asked for or written.
pub fn plan_snapshot(
    offered: &ProviderCapabilities,
    market: Market,
    timeframe: Timeframe,
    target: SnapshotOutputTarget,
    policy: RenderPolicy,
) -> (plan: Result<SnapshotPlan, AppError>)
    ensures
        plan == (match style_fault(target, policy) {
            Some(error) => Err::<SnapshotPlan, AppError>(AppError::Render(error)),
            None => match history_fault(*offered, market, timeframe) {
                Some(detail) => Err(AppError::Provider(ProviderError::Configuration(detail))),
                None => Ok(
                    SnapshotPlan {
                        effective_size: target.frame_size(),
                        request: HistoryRequest {
                            kind: HistoryRequestKind::Latest,
                            start_time: None,
                            end_time: None,
                            limit: wanted_rows(offered.history_page_limit),
                        },
                    },
                ),
            },
        }),
{
    match check_style(target, policy) {
        Ok(()) => {},
        Err(error) => {
            return Err(error);
        },
    }
    let limit: u16 = match history_request_limit(offered, market, timeframe) {
        Ok(limit) => limit,
        Err(error) => {
            return Err(AppError::Provider(error));
        },
    };
    match HistoryRequest::latest(limit) {
        Ok(request) => Ok(SnapshotPlan { effective_size: target.effective_size(), request }),
        Err(error) => Err(AppError::Request(error)),
    }
}

/// Whether a text continues with a pattern.
pub open spec fn continues_with(text: Seq<char>, pattern: Seq<char>) -> bool {
    pattern.len() <= text.len() && text.take(pattern.len() as int) =~= pattern
}

/// A text in which every occurrence of a pattern, from left to right, is replaced.
pub open spec fn replaced(text: Seq<char>, pattern: Seq<char>, with: Seq<char>) -> Seq<char>
    decreases text.len(),
{
    if text.len() == 0 || pattern.len() == 0 {
        text
    } else if continues_with(text, pattern) {
        with + replaced(text.skip(pattern.len() as int), pattern, with)
    } else {
        seq![text[0]] + replaced(text.skip(1), pattern, with)
    }
}

fn is_at(chars: &Vec<char>, place: usize, pattern: &Vec<char>) -> (found: bool)
    requires
        place <= chars@.len(),
    ensures
        found == continues_with(chars@.skip(place as int), pattern@),
{
    if pattern.len() > chars.len() - place {
        return false;
    }
    let mut index: usize = 0;
    while index < pattern.len()
        invariant
            place + pattern.len() <= chars.len(),
            index <= pattern@.len(),
            forall|i: int| 0 <= i < index ==> chars@[place + i] == #[trigger] pattern@[i],
        decreases pattern@.len() - index,
    {
        if chars[place + index] != pattern[index] {
            assert(chars@.skip(place as int).take(pattern@.len() as int)[index as int]
                != pattern@[index as int]);
            return false;
        }
        index += 1;
    }
    assert(chars@.skip(place as int).take(pattern@.len() as int) =~= pattern@);
    true
}

fn replace_all(text: &str, pattern: &str, with: &str) -> (result: String)
    requires
        pattern@.len() > 0,
    ensures
        result@ == replaced(text@, pattern@, with@),
{
    let chars = chars_of(text);
    let wanted = chars_of(pattern);
    let mut result = "".to_owned();
    let mut place: usize = 0;
    proof {
        reveal_strlit("");
        assert(chars@.skip(0) =~= chars@);
        assert(result@ + replaced(chars@, wanted@, with@) =~= replaced(text@, pattern@, with@));
    }
    while place < chars.len()
        invariant
            place <= chars@.len(),
            wanted@ == pattern@,
            chars@ == text@,
            pattern@.len() > 0,
            result@ + replaced(chars@.skip(place as int), pattern@, with@) == replaced(
                text@,
                pattern@,
                with@,
            ),
        decreases chars@.len() - place,
    {
        let ghost rest = chars@.skip(place as int);
        let ghost before = result@;
        if is_at(&chars, place, &wanted) {
            result.append(with);
            assert(rest.skip(pattern@.len() as int) =~= chars@.skip(place + pattern@.len()));
            proof {
                let tail = replaced(rest.skip(pattern@.len() as int), pattern@, with@);
                assert(before + (with@ + tail) =~= result@ + tail);
            }
            place += wanted.len();
        } else {
            result.push(chars[place]);
            assert(rest.skip(1) =~= chars@.skip(place + 1));
            proof {
                let tail = replaced(rest.skip(1), pattern@, with@);
                assert(rest[0] == chars@[place as int]);
                assert(before + (seq![rest[0]] + tail) =~= result@ + tail);
            }
            place += 1;
        }
    }
    assert(chars@.skip(place as int).len() == 0);
    assert(result@ + replaced(chars@.skip(place as int), pattern@, with@) =~= result@);
    result
}

/// What a template for frames that are too small says of a size.
pub open spec fn resize_words(template: Seq<char>, required: FrameSize, actual: FrameSize) -> Seq<
    char,
> {
    replaced(
        replaced(
            replaced(
                replaced(
                    template,
                    "{required_width}"@,
                    crate::text::numeral(required.width as int),
                ),
                "{required_height}"@,
                crate::text::numeral(required.height as int),
            ),
            "{actual_width}"@,
            crate::text::numeral(actual.width as int),
        ),
        "{actual_height}"@,
        crate::text::numeral(actual.height as int),
    )
}

pub fn resize_message(template: &str, required: FrameSize, actual: FrameSize) -> (message: String)
    ensures
        message@ == resize_words(template@, required, actual),
{
    proof {
        reveal_strlit("{required_width}");
        reveal_strlit("{required_height}");
        reveal_strlit("{actual_width}");
        reveal_strlit("{actual_height}");
    }
    let required_width = u64_text(required.width as u64);
    let required_height = u64_text(required.height as u64);
    let actual_width = u64_text(actual.width as u64);
    let actual_height = u64_text(actual.height as u64);
    let message = replace_all(template, "{required_width}", required_width.as_str());
    let message = replace_all(message.as_str(), "{required_height}", required_height.as_str());
    let message = replace_all(message.as_str(), "{actual_width}", actual_width.as_str());
    replace_all(message.as_str(), "{actual_height}", actual_height.as_str())
}

/// Whether a chart fits into a frame.
#[derive(Clone, Copy, Debug, PartialEq, Eq, Structural)]
pub enum SnapshotFit {
    Ready,
    Pending { required: FrameSize, actual: FrameSize },
}

/// What to do once the frame is laid out.
#[derive(Debug, PartialEq, Eq)]
pub enum SnapshotStep {
    /// Ask for history, and draw it.
    Fetch(HistoryRequest),
    /// Write the message in place of the chart, and end with the error. Nothing is asked for.
    Refuse { message: String, error: AppError },
}

/// What follows from how a chart fits: one that does not is never fetched.
pub fn after_layout(plan: &SnapshotPlan, fit: SnapshotFit, template: &str) -> (step: SnapshotStep)
    ensures
        match fit {
            SnapshotFit::Ready => step == SnapshotStep::Fetch(plan.request),
            SnapshotFit::Pending { required, actual } => step matches SnapshotStep::Refuse {
                message,
                error,
            } && message@ == resize_words(template@, required, actual) && error
                == AppError::Render(RenderError::InsufficientSpace),
        },
{
    match fit {
        SnapshotFit::Ready => SnapshotStep::Fetch(plan.request),
        SnapshotFit::Pending { required, actual } => SnapshotStep::Refuse {
            message: resize_message(template, required, actual),
            error: AppError::Render(RenderError::InsufficientSpace),
        },
    }
}

/// A color that a terminal knows.
#[derive(Clone, Copy, Debug, PartialEq, Eq, Structural)]
pub enum FrameColor {
    Reset,
    Black,
    Red,
    Green,
    Yellow,
    Blue,
    Magenta,
    Cyan,
    Gray,
    DarkGray,
    LightRed,
    LightGreen,
    LightYellow,
    LightBlue,
    LightMagenta,
    LightCyan,
    White,
    Rgb(u8, u8, u8),
    Indexed(u8),
}

/// How a cell looks. Only its colors are written; whatever else differs makes it another style.
#[derive(Clone, Copy, Debug, PartialEq, Eq, Structural)]
pub struct CellStyle {
    pub foreground: Option<FrameColor>,
    pub background: Option<FrameColor>,
    pub underline: Option<FrameColor>,
    pub added: u16,
    pub removed: u16,
}

impl CellStyle {
    pub open spec fn none() -> CellStyle {
        CellStyle { foreground: None, background: None, underline: None, added: 0, removed: 0 }
    }

    /// The style that says nothing.
    pub fn plain() -> (style: CellStyle)
        ensures
            style == CellStyle::none(),
    {
        CellStyle { foreground: None, background: None, underline: None, added: 0, removed: 0 }
    }
}

#[derive(Debug, PartialEq, Eq)]
pub struct FrameCell {
    pub symbol: String,
    pub style: CellStyle,
}

/// A frame: its rows, from the top.
#[derive(Debug, PartialEq, Eq)]
pub struct Frame {
    pub rows: Vec<Vec<FrameCell>>,
}

/// The place of a color among the sixteen that have a number of their own: eight, and their bright
/// variants.
pub open spec fn palette_place(color: FrameColor) -> Option<int> {
    match color {
        FrameColor::Black => Some(0),
        FrameColor::Red => Some(1),
        FrameColor::Green => Some(2),
        FrameColor::Yellow => Some(3),
        FrameColor::Blue => Some(4),
        FrameColor::Magenta => Some(5),
        FrameColor::Cyan => Some(6),
        FrameColor::Gray => Some(7),
        FrameColor::DarkGray => Some(8),
        FrameColor::LightRed => Some(9),
        FrameColor::LightGreen => Some(10),
        FrameColor::LightYellow => Some(11),
        FrameColor::LightBlue => Some(12),
        FrameColor::LightMagenta => Some(13),
        FrameColor::LightCyan => Some(14),
        FrameColor::White => Some(15),
        _ => None,
    }
}

/// The number that selects a color of the palette.
pub open spec fn palette_code(place: int, background: bool) -> int {
    if place < 8 {
        place + (if background {
            40
        } else {
            30int
        })
    } else {
        place - 8 + (if background {
            100
        } else {
            90int
        })
    }
}

/// The parameters of the escape sequence that selects a color.
pub open spec fn color_parameters(color: FrameColor, background: bool) -> Seq<char> {
    match color {
        FrameColor::Reset => crate::text::numeral(
            if background {
                49
            } else {
                39
            },
        ),
        FrameColor::Indexed(index) => crate::text::numeral(
            if background {
                48
            } else {
                38
            },
        ) + ";5;"@ + crate::text::numeral(index as int),
        FrameColor::Rgb(red, green, blue) => crate::text::numeral(
            if background {
                48
            } else {
                38
            },
        ) + ";2;"@ + crate::text::numeral(red as int) + ";"@ + crate::text::numeral(green as int)
            + ";"@ + crate::text::numeral(blue as int),
        _ => crate::text::numeral(palette_code(palette_place(color)->0, background)),
    }
}

pub open spec fn color_sequence(color: Option<FrameColor>, background: bool) -> Seq<char> {
    match color {
        Some(color) => "\x1b["@ + color_parameters(color, background) + "m"@,
        None => Seq::empty(),
    }
}

/// The escape sequences that select a style's colors, after what was selected before is undone.
pub open spec fn style_sequence(style: CellStyle) -> Seq<char> {
    "\x1b[0m"@ + color_sequence(style.foreground, false) + color_sequence(style.background, true)
}

fn append_number(text: &mut String, number: u64)
    ensures
        final(text)@ == old(text)@ + crate::text::numeral(number as int),
{
    let numeral = u64_text(number);
    text.append(numeral.as_str());
}

fn color_code(color: FrameColor) -> (place: u64)
    ensures
        palette_place(color) matches Some(expected) ==> place == expected,
        place < 16,
{
    match color {
        FrameColor::Black => 0,
        FrameColor::Red => 1,
        FrameColor::Green => 2,
        FrameColor::Yellow => 3,
        FrameColor::Blue => 4,
        FrameColor::Magenta => 5,
        FrameColor::Cyan => 6,
        FrameColor::Gray => 7,
        FrameColor::DarkGray => 8,
        FrameColor::LightRed => 9,
        FrameColor::LightGreen => 10,
        FrameColor::LightYellow => 11,
        FrameColor::LightBlue => 12,
        FrameColor::LightMagenta => 13,
        FrameColor::LightCyan => 14,
        FrameColor::White => 15,
        _ => 0,
    }
}

fn write_color_parameters(output: &mut String, color: FrameColor, background: bool)
    ensures
        final(output)@ == old(output)@ + color_parameters(color, background),
{
    let ghost before = output@;
    match color {
        FrameColor::Reset => append_number(
            output,
            if background {
                49
            } else {
                39
            },
        ),
        FrameColor::Indexed(index) => {
            append_number(
                output,
                if background {
                    48
                } else {
                    38
                },
            );
            output.append(";5;");
            append_number(output, index as u64);
            assert(output@ =~= before + color_parameters(color, background));
        },
        FrameColor::Rgb(red, green, blue) => {
            append_number(
                output,
                if background {
                    48
                } else {
                    38
                },
            );
            output.append(";2;");
            append_number(output, red as u64);
            output.append(";");
            append_number(output, green as u64);
            output.append(";");
            append_number(output, blue as u64);
            assert(output@ =~= before + color_parameters(color, background));
        },
        _ => {
            let place: u64 = color_code(color);
            let code: u64 = if place < 8 {
                place + (if background {
                    40
                } else {
                    30
                })
            } else {
                place - 8 + (if background {
                    100
                } else {
                    90
                })
            };
            append_number(output, code);
        },
    }
}

fn write_ansi_color(output: &mut String, color: Option<FrameColor>, background: bool)
    ensures
        final(output)@ == old(output)@ + color_sequence(color, background),
{
    let ghost before = output@;
    if let Some(color) = color {
        output.append("\x1b[");
        write_color_parameters(output, color, background);
        output.append("m");
    }
    assert(output@ =~= before + color_sequence(color, background));
}

fn write_ansi_style(output: &mut String, style: CellStyle)
    ensures
        final(output)@ == old(output)@ + style_sequence(style),
{
    let ghost before = output@;
    output.append("\x1b[0m");
    write_ansi_color(output, style.foreground, false);
    write_ansi_color(output, style.background, true);
    assert(output@ =~= before + style_sequence(style));
}

/// The cells of a row one after another, and the style that is in effect after them. A style is
/// selected where it changes, and only on a terminal that is to show colors.
pub open spec fn cells_written(cells: Seq<FrameCell>, colored: bool) -> (Seq<char>, CellStyle)
    decreases cells.len(),
{
    if cells.len() == 0 {
        (Seq::empty(), CellStyle::none())
    } else {
        let (text, active) = cells_written(cells.drop_last(), colored);
        let cell = cells.last();
        if colored && cell.style != active {
            (text + style_sequence(cell.style) + cell.symbol@, cell.style)
        } else {
            (text + cell.symbol@, active)
        }
    }
}

/// What a row is written as, without the end of its line.
pub open spec fn row_written(cells: Seq<FrameCell>, colored: bool) -> Seq<char> {
    let (text, active) = cells_written(cells, colored);
    if active != CellStyle::none() {
        text + "\x1b[0m"@
    } else {
        text
    }
}

/// What ends a line: nothing ends the last line on a terminal.
pub open spec fn line_end(target: SnapshotOutputTarget, last: bool) -> Seq<char> {
    match target {
        SnapshotOutputTarget::NonTty => "\n"@,
        SnapshotOutputTarget::Tty { .. } => if last {
            Seq::empty()
        } else {
            "\r\n"@
        },
    }
}

pub open spec fn shows_colors(target: SnapshotOutputTarget, policy: RenderPolicy) -> bool {
    target is Tty && policy == RenderPolicy::Color
}

/// What the first rows of a frame are written as.
pub open spec fn rows_written(
    rows: Seq<Vec<FrameCell>>,
    count: nat,
    target: SnapshotOutputTarget,
    policy: RenderPolicy,
) -> Seq<char>
    decreases count,
{
    if count == 0 {
        Seq::empty()
    } else {
        rows_written(rows, (count - 1) as nat, target, policy) + row_written(
            rows[count - 1]@,
            shows_colors(target, policy),
        ) + line_end(target, count == rows.len())
    }
}

fn write_row(output: &mut String, cells: &Vec<FrameCell>, colored: bool)
    ensures
        final(output)@ == old(output)@ + row_written(cells@, colored),
{
    let ghost before = output@;
    let mut active = CellStyle::plain();
    let mut index: usize = 0;
    assert(cells@.take(0) =~= Seq::<FrameCell>::empty());
    assert(output@ =~= before + cells_written(cells@.take(0), colored).0);
    while index < cells.len()
        invariant
            index <= cells@.len(),
            output@ == before + cells_written(cells@.take(index as int), colored).0,
            active == cells_written(cells@.take(index as int), colored).1,
        decreases cells@.len() - index,
    {
        let ghost so_far = output@;
        let ghost text = cells_written(cells@.take(index as int), colored).0;
        assert(cells@.take(index + 1).drop_last() =~= cells@.take(index as int));
        let style = cells[index].style;
        if colored && style != active {
            write_ansi_style(output, style);
            active = style;
        }
        output.append(cells[index].symbol.as_str());
        assert(output@ =~= before + cells_written(cells@.take(index + 1), colored).0);
        index += 1;
    }
    assert(cells@.take(index as int) =~= cells@);
    if active != CellStyle::plain() {
        output.append("\x1b[0m");
    }
    assert(output@ =~= before + row_written(cells@, colored));
}

/// Writes a frame as text.
pub fn serialize_frame(frame: &Frame, target: SnapshotOutputTarget, policy: RenderPolicy) -> (
output: String)
    ensures
        output@ == rows_written(frame.rows@, frame.rows@.len(), target, policy),
{
    let colored = match target {
        SnapshotOutputTarget::Tty { .. } => policy == RenderPolicy::Color,
        SnapshotOutputTarget::NonTty => false,
    };
    let mut output = "".to_owned();
    proof {
        reveal_strlit("");
        assert(output@ =~= Seq::<char>::empty());
    }
    let mut index: usize = 0;
    while index < frame.rows.len()
        invariant
            index <= frame.rows@.len(),
            colored == shows_colors(target, policy),
            output@ == rows_written(frame.rows@, index as nat, target, policy),
        decreases frame.rows@.len() - index,
    {
        write_row(&mut output, &frame.rows[index], colored);
        match target {
            SnapshotOutputTarget::NonTty => output.append("\n"),
            SnapshotOutputTarget::Tty { .. } => {
                if index + 1 < frame.rows.len() {
                    output.append("\r\n");
                }
            },
        }
        index += 1;
        assert(output@ =~= rows_written(frame.rows@, index as nat, target, policy));
    }
    output
}

pub fn output_error() -> (error: AppError)
    ensures
        error == AppError::Render(RenderError::Output(SanitizedCause::Io)),
{
    AppError::Render(RenderError::Output(SanitizedCause::Io))
}

/// The symbols of cells, and nothing else.
pub open spec fn symbols(cells: Seq<FrameCell>) -> Seq<char>
    decreases cells.len(),
{
    if cells.len() == 0 {
        Seq::empty()
    } else {
        symbols(cells.drop_last()) + cells.last().symbol@
    }
}

/// What is not written to a terminal in color is written without any escape sequence: a row is its
/// symbols.
pub proof fn law_style_free_rows_are_symbols(cells: Seq<FrameCell>)
    ensures
        row_written(cells, false) == symbols(cells),
        cells_written(cells, false) == (symbols(cells), CellStyle::none()),
    decreases cells.len(),
{
    if cells.len() > 0 {
        law_style_free_rows_are_symbols(cells.drop_last());
    }
}

/// A text without its escape sequences, each of which runs from an escape character through the next
/// `m`, and whether it ends within one.
pub open spec fn without_escapes(text: Seq<char>) -> (Seq<char>, bool)
    decreases text.len(),
{
    if text.len() == 0 {
        (Seq::empty(), false)
    } else {
        let (kept, within) = without_escapes(text.drop_last());
        let next = text.last();
        if within {
            (kept, next != 'm')
        } else if next == '\x1b' {
            (kept, true)
        } else {
            (kept.push(next), false)
        }
    }
}

proof fn lemma_escapes_apart(left: Seq<char>, right: Seq<char>)
    requires
        !without_escapes(left).1,
    ensures
        without_escapes(left + right).0 == without_escapes(left).0 + without_escapes(right).0,
        without_escapes(left + right).1 == without_escapes(right).1,
    decreases right.len(),
{
    if right.len() == 0 {
        assert(left + right =~= left);
        assert(without_escapes(left).0 + without_escapes(right).0 =~= without_escapes(left).0);
    } else {
        lemma_escapes_apart(left, right.drop_last());
        assert((left + right).drop_last() =~= left + right.drop_last());
        assert((left + right).last() == right.last());
        assert(without_escapes(left + right).0 =~= without_escapes(left).0 + without_escapes(
            right,
        ).0);
    }
}

proof fn lemma_plain_stays(text: Seq<char>)
    requires
        !text.contains('\x1b'),
    ensures
        without_escapes(text) == (text, false),
    decreases text.len(),
{
    if text.len() > 0 {
        assert forall|c: char| text.drop_last().contains(c) implies text.contains(c) by {
            let place = choose|i: int| 0 <= i < text.drop_last().len() && text.drop_last()[i] == c;
            assert(text[place] == c);
        }
        lemma_plain_stays(text.drop_last());
        assert(text.contains(text[text.len() - 1]));
        assert(text.drop_last().push(text.last()) =~= text);
    } else {
        assert(text =~= Seq::<char>::empty());
    }
}

/// What begins with an escape character and has no `m` before its end is all escape sequence.
proof fn lemma_sequence_begins(text: Seq<char>)
    requires
        text.len() > 0,
        text[0] == '\x1b',
        forall|i: int| 0 <= i < text.len() ==> #[trigger] text[i] != 'm',
    ensures
        without_escapes(text) == (Seq::<char>::empty(), true),
    decreases text.len(),
{
    reveal_with_fuel(without_escapes, 2);
    if text.len() > 1 {
        lemma_sequence_begins(text.drop_last());
    } else {
        assert(text.drop_last() =~= Seq::<char>::empty());
    }
}

proof fn lemma_sequence_goes(text: Seq<char>)
    requires
        text.len() > 1,
        text[0] == '\x1b',
        text.last() == 'm',
        forall|i: int| 0 <= i < text.len() - 1 ==> #[trigger] text[i] != 'm',
    ensures
        without_escapes(text) == (Seq::<char>::empty(), false),
{
    lemma_sequence_begins(text.drop_last());
}

proof fn lemma_numeral_has_no_end(number: int)
    requires
        0 <= number <= u64::MAX,
    ensures
        forall|i: int|
            0 <= i < crate::text::numeral(number).len() ==> #[trigger] crate::text::numeral(
                number,
            )[i] != 'm',
{
    crate::text::law_numeral_reads_back(number as u64);
    assert(crate::text::all_digits(crate::text::numeral(number)));
}

proof fn lemma_parameters_have_no_end(color: FrameColor, background: bool)
    ensures
        forall|i: int|
            0 <= i < color_parameters(color, background).len() ==> #[trigger] color_parameters(
                color,
                background,
            )[i] != 'm',
{
    reveal_strlit(";5;");
    reveal_strlit(";2;");
    reveal_strlit(";");
    lemma_numeral_has_no_end(38);
    lemma_numeral_has_no_end(39);
    lemma_numeral_has_no_end(48);
    lemma_numeral_has_no_end(49);
    match color {
        FrameColor::Indexed(index) => {
            lemma_numeral_has_no_end(index as int);
        },
        FrameColor::Rgb(red, green, blue) => {
            lemma_numeral_has_no_end(red as int);
            lemma_numeral_has_no_end(green as int);
            lemma_numeral_has_no_end(blue as int);
        },
        FrameColor::Reset => {},
        _ => {
            lemma_numeral_has_no_end(palette_code(palette_place(color)->0, background));
        },
    }
}

proof fn lemma_color_goes(color: Option<FrameColor>, background: bool)
    ensures
        without_escapes(color_sequence(color, background)) == (Seq::<char>::empty(), false),
{
    if let Some(shade) = color {
        reveal_strlit("\x1b[");
        reveal_strlit("m");
        lemma_parameters_have_no_end(shade, background);
        let text = color_sequence(color, background);
        let parameters = color_parameters(shade, background);
        assert forall|i: int| 0 <= i < text.len() - 1 implies #[trigger] text[i] != 'm' by {
            if i >= 2 {
                assert(text[i] == parameters[i - 2]);
            }
        }
        lemma_sequence_goes(text);
    }
}

proof fn lemma_reset_goes()
    ensures
        without_escapes("\x1b[0m"@) == (Seq::<char>::empty(), false),
{
    reveal_strlit("\x1b[0m");
    lemma_sequence_goes("\x1b[0m"@);
}

proof fn lemma_style_goes(style: CellStyle)
    ensures
        without_escapes(style_sequence(style)) == (Seq::<char>::empty(), false),
{
    let reset = "\x1b[0m"@;
    let foreground = color_sequence(style.foreground, false);
    let background = color_sequence(style.background, true);
    lemma_reset_goes();
    lemma_color_goes(style.foreground, false);
    lemma_color_goes(style.background, true);
    lemma_escapes_apart(reset, foreground);
    lemma_escapes_apart(reset + foreground, background);
    assert(without_escapes(style_sequence(style)).0 =~= Seq::<char>::empty());
}

/// Whether no symbol of a row holds an escape character.
pub open spec fn plain_symbols(cells: Seq<FrameCell>) -> bool {
    forall|i: int| 0 <= i < cells.len() ==> !(#[trigger] cells[i]).symbol@.contains('\x1b')
}

proof fn lemma_cells_are_symbols(cells: Seq<FrameCell>, colored: bool)
    requires
        plain_symbols(cells),
    ensures
        without_escapes(cells_written(cells, colored).0) == (symbols(cells), false),
    decreases cells.len(),
{
    if cells.len() > 0 {
        let (text, active) = cells_written(cells.drop_last(), colored);
        let cell = cells.last();
        assert forall|i: int| 0 <= i < cells.drop_last().len() implies !(
        #[trigger] cells.drop_last()[i]).symbol@.contains('\x1b') by {
            assert(cells.drop_last()[i] == cells[i]);
        }
        lemma_cells_are_symbols(cells.drop_last(), colored);
        assert(!cells[cells.len() - 1].symbol@.contains('\x1b'));
        lemma_plain_stays(cell.symbol@);
        if colored && cell.style != active {
            lemma_style_goes(cell.style);
            lemma_escapes_apart(text, style_sequence(cell.style));
            lemma_escapes_apart(text + style_sequence(cell.style), cell.symbol@);
        } else {
            lemma_escapes_apart(text, cell.symbol@);
        }
        assert(without_escapes(cells_written(cells, colored).0).0 =~= symbols(cells));
    }
}

proof fn lemma_row_is_symbols(cells: Seq<FrameCell>, colored: bool)
    requires
        plain_symbols(cells),
    ensures
        without_escapes(row_written(cells, colored)) == (symbols(cells), false),
{
    let (text, active) = cells_written(cells, colored);
    lemma_cells_are_symbols(cells, colored);
    lemma_reset_goes();
    lemma_escapes_apart(text, "\x1b[0m"@);
    assert(symbols(cells) + Seq::<char>::empty() =~= symbols(cells));
}

proof fn lemma_rows_without_colors(
    rows: Seq<Vec<FrameCell>>,
    count: nat,
    target: SnapshotOutputTarget,
)
    requires
        count <= rows.len(),
        forall|i: int| 0 <= i < rows.len() ==> plain_symbols((#[trigger] rows[i])@),
    ensures
        without_escapes(rows_written(rows, count, target, RenderPolicy::Color)) == (
            rows_written(rows, count, target, RenderPolicy::StyleFree),
            false,
        ),
    decreases count,
{
    if count > 0 {
        let cells = rows[count - 1]@;
        let colored = shows_colors(target, RenderPolicy::Color);
        let before = rows_written(rows, (count - 1) as nat, target, RenderPolicy::Color);
        let row = row_written(cells, colored);
        let end = line_end(target, count == rows.len());
        lemma_rows_without_colors(rows, (count - 1) as nat, target);
        lemma_row_is_symbols(cells, colored);
        law_style_free_rows_are_symbols(cells);
        reveal_strlit("\n");
        reveal_strlit("\r\n");
        lemma_plain_stays(end);
        lemma_escapes_apart(before, row);
        lemma_escapes_apart(before + row, end);
        assert(without_escapes(rows_written(rows, count, target, RenderPolicy::Color)).0
            =~= rows_written(rows, count, target, RenderPolicy::StyleFree));
    }
}

/// A frame in color, without its escape sequences, is the frame without style, where no symbol holds
/// an escape character of its own.
pub proof fn law_colors_only_add_escapes(frame: Frame, target: SnapshotOutputTarget)
    requires
        forall|i: int| 0 <= i < frame.rows@.len() ==> plain_symbols((#[trigger] frame.rows@[i])@),
    ensures
        without_escapes(
            rows_written(frame.rows@, frame.rows@.len(), target, RenderPolicy::Color),
        ).0 == rows_written(frame.rows@, frame.rows@.len(), target, RenderPolicy::StyleFree),
{
    lemma_rows_without_colors(frame.rows@, frame.rows@.len(), target);
}

/// A snapshot never asks for more rows than a page has, nor for none.
pub proof fn law_snapshot_fits_a_page(page_limit: u16)
    requires
        page_limit > 0,
    ensures
        0 < wanted_rows(page_limit) <= page_limit,
        wanted_rows(page_limit) <= SNAPSHOT_HISTORY_LIMIT,
{
}

} // verus!
