//! What a terminal shows of a snapshot: its escape sequences, read back.
use vstd::prelude::*;

use crate::snapshot::{
    cells_written, color_parameters, color_sequence, line_end, plain_symbols, row_written,
    rows_written, shows_colors, style_sequence, symbols, CellStyle, Frame, FrameCell, FrameColor,
    RenderPolicy, SnapshotOutputTarget,
};

verus! {

/// The colors that a terminal draws with: none where nothing was selected since the last reset.
#[verifier::ext_equal]
pub struct Pen {
    pub foreground: Option<FrameColor>,
    pub background: Option<FrameColor>,
}

/// The colors of a style.
pub open spec fn colors_of(style: CellStyle) -> Pen {
    Pen { foreground: style.foreground, background: style.background }
}

pub open spec fn blank() -> Pen {
    Pen { foreground: None, background: None }
}

/// The fields of a text that semicolons part.
pub open spec fn fields(text: Seq<char>) -> Seq<Seq<char>>
    decreases text.len(),
{
    if text.len() == 0 {
        seq![Seq::empty()]
    } else {
        let before = fields(text.drop_last());
        if text.last() == ';' {
            before.push(Seq::empty())
        } else {
            before.drop_last().push(before.last().push(text.last()))
        }
    }
}

/// The numbers of an escape sequence.
pub open spec fn codes(text: Seq<char>) -> Seq<int> {
    fields(text).map_values(|field: Seq<char>| crate::text::numeral_value(field))
}

/// The color that a number of the palette stands for: the eight, and the eight bright ones.
pub open spec fn palette(place: int) -> FrameColor {
    if place == 0 {
        FrameColor::Black
    } else if place == 1 {
        FrameColor::Red
    } else if place == 2 {
        FrameColor::Green
    } else if place == 3 {
        FrameColor::Yellow
    } else if place == 4 {
        FrameColor::Blue
    } else if place == 5 {
        FrameColor::Magenta
    } else if place == 6 {
        FrameColor::Cyan
    } else if place == 7 {
        FrameColor::Gray
    } else if place == 8 {
        FrameColor::DarkGray
    } else if place == 9 {
        FrameColor::LightRed
    } else if place == 10 {
        FrameColor::LightGreen
    } else if place == 11 {
        FrameColor::LightYellow
    } else if place == 12 {
        FrameColor::LightBlue
    } else if place == 13 {
        FrameColor::LightMagenta
    } else if place == 14 {
        FrameColor::LightCyan
    } else {
        FrameColor::White
    }
}

/// The color that numbers select, where the numbers of its plane begin with `plain` and `bright`.
pub open spec fn selected(numbers: Seq<int>, plain: int, bright: int) -> Option<FrameColor> {
    if numbers.len() == 1 && plain <= numbers[0] < plain + 8 {
        Some(palette(numbers[0] - plain))
    } else if numbers.len() == 1 && bright <= numbers[0] < bright + 8 {
        Some(palette(numbers[0] - bright + 8))
    } else if numbers.len() == 1 && numbers[0] == plain + 9 {
        Some(FrameColor::Reset)
    } else if numbers.len() == 3 && numbers[0] == plain + 8 && numbers[1] == 5 {
        Some(FrameColor::Indexed(numbers[2] as u8))
    } else if numbers.len() == 5 && numbers[0] == plain + 8 && numbers[1] == 2 {
        Some(FrameColor::Rgb(numbers[2] as u8, numbers[3] as u8, numbers[4] as u8))
    } else {
        None
    }
}

/// What the numbers of an escape sequence make of a pen: zero undoes all, the thirties and nineties
/// select the foreground, the forties and hundreds the background.
pub open spec fn dipped(pen: Pen, numbers: Seq<int>) -> Pen {
    if numbers == seq![0int] {
        blank()
    } else if selected(numbers, 30, 90) is Some {
        Pen { foreground: selected(numbers, 30, 90), ..pen }
    } else if selected(numbers, 40, 100) is Some {
        Pen { background: selected(numbers, 40, 100), ..pen }
    } else {
        pen
    }
}

/// A terminal: what it draws with, the escape sequence that it is within, and what it has shown, each
/// character with the pen that drew it.
#[verifier::ext_equal]
pub struct Screen {
    pub pen: Pen,
    pub within: bool,
    pub pending: Seq<char>,
    pub shown: Seq<(char, Pen)>,
}

/// What a terminal makes of one character.
pub open spec fn typed(screen: Screen, character: char) -> Screen {
    if !screen.within {
        if character == '\x1b' {
            Screen { within: true, ..screen }
        } else {
            Screen { shown: screen.shown.push((character, screen.pen)), ..screen }
        }
    } else if character != 'm' {
        Screen { pending: screen.pending.push(character), ..screen }
    } else {
        Screen {
            pen: if screen.pending.len() > 0 && screen.pending[0] == '[' {
                dipped(screen.pen, codes(screen.pending.skip(1)))
            } else {
                screen.pen
            },
            within: false,
            pending: Seq::empty(),
            shown: screen.shown,
        }
    }
}

/// What a terminal makes of a text.
pub open spec fn read(screen: Screen, text: Seq<char>) -> Screen
    decreases text.len(),
{
    if text.len() == 0 {
        screen
    } else {
        typed(read(screen, text.drop_last()), text.last())
    }
}

/// A terminal that has shown nothing yet.
pub open spec fn fresh() -> Screen {
    Screen { pen: blank(), within: false, pending: Seq::empty(), shown: Seq::empty() }
}

/// A text as one pen draws it.
pub open spec fn drawn(text: Seq<char>, pen: Pen) -> Seq<(char, Pen)> {
    text.map_values(|character: char| (character, pen))
}

proof fn lemma_read_apart(screen: Screen, left: Seq<char>, right: Seq<char>)
    ensures
        read(screen, left + right) == read(read(screen, left), right),
    decreases right.len(),
{
    if right.len() == 0 {
        assert(left + right =~= left);
    } else {
        lemma_read_apart(screen, left, right.drop_last());
        assert((left + right).drop_last() =~= left + right.drop_last());
        assert((left + right).last() == right.last());
    }
}

proof fn lemma_plain_is_drawn(screen: Screen, text: Seq<char>)
    requires
        !screen.within,
        !text.contains('\x1b'),
    ensures
        read(screen, text) == (Screen { shown: screen.shown + drawn(text, screen.pen), ..screen }),
    decreases text.len(),
{
    if text.len() == 0 {
        assert(screen.shown + drawn(text, screen.pen) =~= screen.shown);
    } else {
        let fewer = text.drop_last();
        assert(!fewer.contains('\x1b')) by {
            if fewer.contains('\x1b') {
                let place = choose|i: int| 0 <= i < fewer.len() && fewer[i] == '\x1b';
                assert(text[place] == '\x1b');
            }
        }
        lemma_plain_is_drawn(screen, fewer);
        assert(text.contains(text[text.len() - 1]));
        assert(read(screen, text).shown =~= screen.shown + drawn(text, screen.pen));
    }
}

proof fn lemma_sequence_is_collected(screen: Screen, text: Seq<char>)
    requires
        screen.within,
        forall|i: int| 0 <= i < text.len() ==> #[trigger] text[i] != 'm',
    ensures
        read(screen, text) == (Screen { pending: screen.pending + text, ..screen }),
    decreases text.len(),
{
    if text.len() == 0 {
        assert(screen.pending + text =~= screen.pending);
    } else {
        lemma_sequence_is_collected(screen, text.drop_last());
        assert(read(screen, text).pending =~= screen.pending + text);
    }
}

/// A whole escape sequence changes the pen by its numbers, and shows nothing.
proof fn lemma_sequence_is_read(screen: Screen, parameters: Seq<char>)
    requires
        !screen.within,
        screen.pending.len() == 0,
        forall|i: int| 0 <= i < parameters.len() ==> #[trigger] parameters[i] != 'm',
    ensures
        read(screen, seq!['\x1b', '['] + parameters + seq!['m']) == (Screen {
            pen: dipped(screen.pen, codes(parameters)),
            ..screen
        }),
{
    let text = seq!['\x1b', '['] + parameters + seq!['m'];
    let inner = seq!['['] + parameters;
    let opened = Screen { within: true, ..screen };
    assert(seq!['\x1b'].drop_last() =~= Seq::<char>::empty());
    reveal_with_fuel(read, 2);
    assert(read(screen, seq!['\x1b']) == opened);
    assert(text =~= seq!['\x1b'] + inner + seq!['m']);
    lemma_read_apart(screen, seq!['\x1b'], inner);
    lemma_read_apart(screen, seq!['\x1b'] + inner, seq!['m']);
    lemma_sequence_is_collected(opened, inner);
    assert(screen.pending + inner =~= inner);
    let collected = read(opened, inner);
    assert(collected.pending == inner);
    assert(seq!['m'].drop_last() =~= Seq::<char>::empty());
    assert(inner.skip(1) =~= parameters);
    assert(read(collected, seq!['m']) == typed(collected, 'm'));
    assert(screen.pending =~= Seq::<char>::empty());
}

proof fn lemma_field_goes_on(left: Seq<char>, right: Seq<char>)
    requires
        !right.contains(';'),
    ensures
        fields(left + right) == fields(left).drop_last().push(fields(left).last() + right),
        fields(left).len() > 0,
    decreases right.len(),
{
    lemma_fields_are_some(left);
    if right.len() == 0 {
        assert(left + right =~= left);
        assert(fields(left).last() + right =~= fields(left).last());
        assert(fields(left).drop_last().push(fields(left).last()) =~= fields(left));
    } else {
        let fewer = right.drop_last();
        assert(!fewer.contains(';')) by {
            if fewer.contains(';') {
                let place = choose|i: int| 0 <= i < fewer.len() && fewer[i] == ';';
                assert(right[place] == ';');
            }
        }
        assert(right.contains(right[right.len() - 1]));
        lemma_field_goes_on(left, fewer);
        assert((left + right).drop_last() =~= left + fewer);
        assert((left + right).last() == right.last());
        let before = fields(left + fewer);
        assert(before.last().push(right.last()) =~= fields(left).last() + right);
        assert(before.drop_last() =~= fields(left).drop_last());
    }
}

proof fn lemma_fields_are_some(text: Seq<char>)
    ensures
        fields(text).len() > 0,
    decreases text.len(),
{
    if text.len() > 0 {
        lemma_fields_are_some(text.drop_last());
    }
}

/// A field after a semicolon is the next field.
proof fn lemma_next_field(left: Seq<char>, right: Seq<char>)
    requires
        !right.contains(';'),
    ensures
        fields(left + seq![';'] + right) == fields(left).push(right),
{
    let parted = left + seq![';'];
    assert(parted.drop_last() =~= left);
    lemma_field_goes_on(parted, right);
    lemma_fields_are_some(left);
    assert(Seq::<char>::empty() + right =~= right);
    assert(fields(parted).drop_last() =~= fields(left));
}

proof fn lemma_one_field(text: Seq<char>)
    requires
        !text.contains(';'),
    ensures
        fields(text) == seq![text],
{
    lemma_field_goes_on(Seq::empty(), text);
    assert(Seq::<char>::empty() + text =~= text);
    assert(fields(Seq::<char>::empty()).drop_last().push(text) =~= seq![text]);
}

proof fn lemma_numeral_is_a_field(number: int)
    requires
        0 <= number <= u64::MAX,
    ensures
        !crate::text::numeral(number).contains(';'),
        !crate::text::numeral(number).contains('m'),
        crate::text::numeral_value(crate::text::numeral(number)) == number,
{
    crate::text::law_numeral_reads_back(number as u64);
    let text = crate::text::numeral(number);
    assert(crate::text::all_digits(text));
    if text.contains(';') {
        let place = choose|i: int| 0 <= i < text.len() && text[i] == ';';
        assert(crate::text::is_digit(text[place]));
    }
    if text.contains('m') {
        let place = choose|i: int| 0 <= i < text.len() && text[i] == 'm';
        assert(crate::text::is_digit(text[place]));
    }
}

proof fn lemma_one_code(number: int)
    requires
        0 <= number <= u64::MAX,
    ensures
        codes(crate::text::numeral(number)) == seq![number],
{
    lemma_numeral_is_a_field(number);
    lemma_one_field(crate::text::numeral(number));
    assert(codes(crate::text::numeral(number)) =~= seq![number]);
}

proof fn lemma_next_code(left: Seq<char>, number: int)
    requires
        0 <= number <= u64::MAX,
    ensures
        codes(left + seq![';'] + crate::text::numeral(number)) == codes(left).push(number),
{
    lemma_numeral_is_a_field(number);
    lemma_next_field(left, crate::text::numeral(number));
    assert(codes(left + seq![';'] + crate::text::numeral(number)) =~= codes(left).push(number));
}

proof fn lemma_small_numerals()
    ensures
        crate::text::numeral(2) == seq!['2'],
        crate::text::numeral(5) == seq!['5'],
        crate::text::numeral(0) == seq!['0'],
{
    assert(crate::text::numeral(2) =~= seq!['2']);
    assert(crate::text::numeral(5) =~= seq!['5']);
    assert(crate::text::numeral(0) =~= seq!['0']);
}

/// The parameters of a color, read back, select that color and no other, in its own plane.
proof fn lemma_parameters_are_read(color: FrameColor, background: bool, pen: Pen)
    ensures
        dipped(pen, codes(color_parameters(color, background))) == (if background {
            Pen { background: Some(color), ..pen }
        } else {
            Pen { foreground: Some(color), ..pen }
        }),
{
    let plain: int = if background {
        40
    } else {
        30
    };
    let bright: int = if background {
        100
    } else {
        90
    };
    lemma_small_numerals();
    match color {
        FrameColor::Reset => {
            lemma_one_code(plain + 9);
        },
        FrameColor::Indexed(index) => {
            reveal_strlit(";5;");
            let first = crate::text::numeral(plain + 8);
            let second = first + seq![';'] + crate::text::numeral(5);
            lemma_one_code(plain + 8);
            lemma_next_code(first, 5);
            lemma_next_code(second, index as int);
            assert(color_parameters(color, background) =~= second + seq![';']
                + crate::text::numeral(index as int));
        },
        FrameColor::Rgb(red, green, blue) => {
            reveal_strlit(";2;");
            reveal_strlit(";");
            let first = crate::text::numeral(plain + 8);
            let second = first + seq![';'] + crate::text::numeral(2);
            let third = second + seq![';'] + crate::text::numeral(red as int);
            let fourth = third + seq![';'] + crate::text::numeral(green as int);
            lemma_one_code(plain + 8);
            lemma_next_code(first, 2);
            lemma_next_code(second, red as int);
            lemma_next_code(third, green as int);
            lemma_next_code(fourth, blue as int);
            assert(color_parameters(color, background) =~= fourth + seq![';']
                + crate::text::numeral(blue as int));
        },
        _ => {
            let place = crate::snapshot::palette_place(color)->0;
            lemma_one_code(crate::snapshot::palette_code(place, background));
        },
    }
}

/// Each color is selected by a sequence of its own: what is read back is the color that was written,
/// and colors that differ are written differently.
pub proof fn law_colors_are_told_apart(left: FrameColor, right: FrameColor, background: bool)
    ensures
        color_parameters(left, background) == color_parameters(right, background) ==> left == right,
        color_parameters(left, false) != color_parameters(right, true),
{
    lemma_parameters_are_read(left, background, blank());
    lemma_parameters_are_read(right, background, blank());
    lemma_parameters_are_read(left, false, blank());
    lemma_parameters_are_read(right, true, blank());
}

proof fn lemma_parameters_have_no_end(color: FrameColor, background: bool)
    ensures
        forall|i: int|
            0 <= i < color_parameters(color, background).len() ==> #[trigger] color_parameters(
                color,
                background,
            )[i] != 'm',
{
    reveal_strlit(";5;");
    reveal_strlit(";2;");
    reveal_strlit(";");
    let text = color_parameters(color, background);
    lemma_numeral_is_a_field(38);
    lemma_numeral_is_a_field(39);
    lemma_numeral_is_a_field(48);
    lemma_numeral_is_a_field(49);
    match color {
        FrameColor::Indexed(index) => {
            lemma_numeral_is_a_field(index as int);
        },
        FrameColor::Rgb(red, green, blue) => {
            lemma_numeral_is_a_field(red as int);
            lemma_numeral_is_a_field(green as int);
            lemma_numeral_is_a_field(blue as int);
        },
        FrameColor::Reset => {},
        _ => {
            lemma_numeral_is_a_field(
                crate::snapshot::palette_code(
                    crate::snapshot::palette_place(color)->0,
                    background,
                ),
            );
        },
    }
    assert forall|i: int| 0 <= i < text.len() implies #[trigger] text[i] != 'm' by {
        if text[i] == 'm' {
            assert(text.contains('m'));
        }
    }
}

proof fn lemma_color_is_read(screen: Screen, color: Option<FrameColor>, background: bool)
    requires
        !screen.within,
        screen.pending.len() == 0,
    ensures
        read(screen, color_sequence(color, background)) == (Screen {
            pen: match color {
                None => screen.pen,
                Some(shade) => if background {
                    Pen { background: Some(shade), ..screen.pen }
                } else {
                    Pen { foreground: Some(shade), ..screen.pen }
                },
            },
            ..screen
        }),
{
    if let Some(shade) = color {
        reveal_strlit("\x1b[");
        reveal_strlit("m");
        lemma_parameters_have_no_end(shade, background);
        lemma_parameters_are_read(shade, background, screen.pen);
        lemma_sequence_is_read(screen, color_parameters(shade, background));
        assert(color_sequence(color, background) =~= seq!['\x1b', '['] + color_parameters(
            shade,
            background,
        ) + seq!['m']);
    }
}

proof fn lemma_reset_is_read(screen: Screen)
    requires
        !screen.within,
        screen.pending.len() == 0,
    ensures
        read(screen, "\x1b[0m"@) == (Screen { pen: blank(), ..screen }),
{
    reveal_strlit("\x1b[0m");
    lemma_small_numerals();
    lemma_one_code(0);
    lemma_sequence_is_read(screen, seq!['0']);
    assert("\x1b[0m"@ =~= seq!['\x1b', '['] + seq!['0'] + seq!['m']);
}

proof fn lemma_style_is_read(screen: Screen, style: CellStyle)
    requires
        !screen.within,
        screen.pending.len() == 0,
    ensures
        read(screen, style_sequence(style)) == (Screen { pen: colors_of(style), ..screen }),
{
    let reset = "\x1b[0m"@;
    let foreground = color_sequence(style.foreground, false);
    let background = color_sequence(style.background, true);
    lemma_read_apart(screen, reset, foreground);
    lemma_read_apart(screen, reset + foreground, background);
    lemma_reset_is_read(screen);
    let wiped = read(screen, reset);
    lemma_color_is_read(wiped, style.foreground, false);
    lemma_color_is_read(read(wiped, foreground), style.background, true);
}

/// The symbols of cells, each drawn in the colors of its own cell.
pub open spec fn pictured(cells: Seq<FrameCell>) -> Seq<(char, Pen)>
    decreases cells.len(),
{
    if cells.len() == 0 {
        Seq::empty()
    } else {
        pictured(cells.drop_last()) + drawn(cells.last().symbol@, colors_of(cells.last().style))
    }
}

proof fn lemma_cells_are_pictured(screen: Screen, cells: Seq<FrameCell>)
    requires
        plain_symbols(cells),
        !screen.within,
        screen.pending.len() == 0,
        screen.pen == blank(),
    ensures
        read(screen, cells_written(cells, true).0) == (Screen {
            pen: colors_of(cells_written(cells, true).1),
            shown: screen.shown + pictured(cells),
            ..screen
        }),
    decreases cells.len(),
{
    if cells.len() == 0 {
        assert(screen.shown + pictured(cells) =~= screen.shown);
    } else {
        let fewer = cells.drop_last();
        let (text, active) = cells_written(fewer, true);
        let cell = cells.last();
        assert forall|i: int| 0 <= i < fewer.len() implies !(
        #[trigger] fewer[i]).symbol@.contains('\x1b') by {
            assert(fewer[i] == cells[i]);
        }
        lemma_cells_are_pictured(screen, fewer);
        assert(!cells[cells.len() - 1].symbol@.contains('\x1b'));
        let before = read(screen, text);
        if cell.style != active {
            let sequence = style_sequence(cell.style);
            lemma_read_apart(screen, text, sequence);
            lemma_read_apart(screen, text + sequence, cell.symbol@);
            lemma_style_is_read(before, cell.style);
            lemma_plain_is_drawn(read(before, sequence), cell.symbol@);
        } else {
            lemma_read_apart(screen, text, cell.symbol@);
            lemma_plain_is_drawn(before, cell.symbol@);
        }
        assert(screen.shown + pictured(fewer) + drawn(cell.symbol@, colors_of(cell.style))
            =~= screen.shown + pictured(cells));
    }
}

proof fn lemma_row_is_pictured(screen: Screen, cells: Seq<FrameCell>)
    requires
        plain_symbols(cells),
        !screen.within,
        screen.pending.len() == 0,
        screen.pen == blank(),
    ensures
        read(screen, row_written(cells, true)) == (Screen {
            shown: screen.shown + pictured(cells),
            ..screen
        }),
{
    let (text, active) = cells_written(cells, true);
    lemma_cells_are_pictured(screen, cells);
    lemma_read_apart(screen, text, "\x1b[0m"@);
    lemma_reset_is_read(read(screen, text));
}

proof fn lemma_pictured_in_place(cells: Seq<FrameCell>, place: int, character: int)
    requires
        0 <= place < cells.len(),
        0 <= character < cells[place].symbol@.len(),
    ensures
        ({
            let before = symbols(cells.take(place)).len();
            &&& pictured(cells).len() == symbols(cells).len()
            &&& before + character < pictured(cells).len()
            &&& pictured(cells)[before + character] == (
                cells[place].symbol@[character],
                colors_of(cells[place].style),
            )
        }),
    decreases cells.len(),
{
    let fewer = cells.drop_last();
    lemma_pictured_length(fewer);
    if place < fewer.len() {
        lemma_pictured_in_place(fewer, place, character);
        assert(fewer.take(place) =~= cells.take(place));
        assert(fewer[place] == cells[place]);
    } else {
        assert(cells.take(place) =~= fewer);
    }
}

proof fn lemma_pictured_length(cells: Seq<FrameCell>)
    ensures
        pictured(cells).len() == symbols(cells).len(),
    decreases cells.len(),
{
    if cells.len() > 0 {
        lemma_pictured_length(cells.drop_last());
    }
}

/// A terminal shows every symbol of a row in the foreground and background of its own cell, in its
/// own place, whatever the cells before it look like; and draws without colors again after the row.
pub proof fn law_symbols_have_their_colors(cells: Seq<FrameCell>, place: int, character: int)
    requires
        plain_symbols(cells),
        0 <= place < cells.len(),
        0 <= character < cells[place].symbol@.len(),
    ensures
        ({
            let screen = read(fresh(), row_written(cells, true));
            let shown = screen.shown[symbols(cells.take(place)).len() + character];
            &&& screen.shown.len() == symbols(cells).len()
            &&& shown.0 == cells[place].symbol@[character]
            &&& shown.1.foreground == cells[place].style.foreground
            &&& shown.1.background == cells[place].style.background
            &&& screen.pen.foreground is None && screen.pen.background is None && !screen.within
        }),
{
    lemma_row_is_pictured(fresh(), cells);
    lemma_pictured_in_place(cells, place, character);
    assert(fresh().shown + pictured(cells) =~= pictured(cells));
}

/// What a terminal shows of the first rows of a frame: each as its cells look, and the ends of lines
/// without colors.
pub open spec fn framed(rows: Seq<Vec<FrameCell>>, count: nat) -> Seq<(char, Pen)>
    decreases count,
{
    if count == 0 {
        Seq::empty()
    } else if count == rows.len() {
        framed(rows, (count - 1) as nat) + pictured(rows[count - 1]@)
    } else {
        framed(rows, (count - 1) as nat) + pictured(rows[count - 1]@) + seq![
            ('\r', blank()),
            ('\n', blank()),
        ]
    }
}

proof fn lemma_rows_are_framed(
    rows: Seq<Vec<FrameCell>>,
    count: nat,
    target: SnapshotOutputTarget,
)
    requires
        target is Tty,
        count <= rows.len(),
        forall|i: int| 0 <= i < rows.len() ==> plain_symbols((#[trigger] rows[i])@),
    ensures
        read(fresh(), rows_written(rows, count, target, RenderPolicy::Color)) == (Screen {
            shown: framed(rows, count),
            ..fresh()
        }),
    decreases count,
{
    if count > 0 {
        let cells = rows[count - 1]@;
        let before = rows_written(rows, (count - 1) as nat, target, RenderPolicy::Color);
        let row = row_written(cells, true);
        let end = line_end(target, count == rows.len());
        assert(shows_colors(target, RenderPolicy::Color));
        lemma_rows_are_framed(rows, (count - 1) as nat, target);
        lemma_read_apart(fresh(), before, row);
        lemma_read_apart(fresh(), before + row, end);
        let above = read(fresh(), before);
        lemma_row_is_pictured(above, cells);
        reveal_strlit("\r\n");
        lemma_plain_is_drawn(read(above, row), end);
        assert(read(read(above, row), end).shown =~= framed(rows, count));
    }
}

/// A terminal shows a frame in color cell by cell as it is: every symbol in the colors of its cell,
/// row under row, and nothing after it is colored.
pub proof fn law_frames_are_shown_as_they_are(frame: Frame, target: SnapshotOutputTarget)
    requires
        target is Tty,
        forall|i: int| 0 <= i < frame.rows@.len() ==> plain_symbols((#[trigger] frame.rows@[i])@),
    ensures
        ({
            let screen = read(
                fresh(),
                rows_written(frame.rows@, frame.rows@.len(), target, RenderPolicy::Color),
            );
            &&& screen.shown == framed(frame.rows@, frame.rows@.len())
            &&& screen.pen == blank()
            &&& !screen.within
        }),
{
    lemma_rows_are_framed(frame.rows@, frame.rows@.len(), target);
}

/// A terminal's frame is as wide as the terminal and one row shorter, for the prompt; anything else is
/// written as a frame of a hundred and twenty columns and thirty-six rows.
pub proof fn law_frames_leave_room_for_the_prompt(
    physical_size: crate::snapshot::FrameSize,
    target: SnapshotOutputTarget,
)
    ensures
        target == (SnapshotOutputTarget::Tty { physical_size }) ==> {
            &&& target.frame_size().width == physical_size.width
            &&& physical_size.height > 0 ==> target.frame_size().height == physical_size.height - 1
            &&& physical_size.height == 0 ==> target.frame_size().height == 0
        },
        target is NonTty ==> target.frame_size().width == 120 && target.frame_size().height == 36,
{
}

/// A provider is asked exactly where it offers the market and the period and its pages have rows; and
/// for five hundred rows, or for a page where that has fewer.
pub proof fn law_what_is_asked_for(
    offered: crate::model::ProviderCapabilities,
    market: crate::model::Market,
    timeframe: crate::model::Timeframe,
)
    ensures
        crate::snapshot::history_fault(offered, market, timeframe) is None
            <==> offered.markets@.contains(market) && offered.timeframes@.contains(timeframe)
            && offered.history_page_limit > 0,
        crate::snapshot::wanted_rows(offered.history_page_limit) <= 500,
        crate::snapshot::wanted_rows(offered.history_page_limit) <= offered.history_page_limit,
        crate::snapshot::wanted_rows(offered.history_page_limit) == 500
            || crate::snapshot::wanted_rows(offered.history_page_limit)
            == offered.history_page_limit,
{
}

/// Colors are refused exactly where the output is no terminal, and shown exactly where it is one and
/// they are wanted.
pub proof fn law_colors_are_for_terminals(target: SnapshotOutputTarget, policy: RenderPolicy)
    ensures
        crate::snapshot::style_fault(target, policy) is Some <==> target is NonTty && policy
            == RenderPolicy::Color,
        shows_colors(target, policy) <==> target is Tty && policy == RenderPolicy::Color,
{
}

/// Lines end as their target has it: with a line feed after every row where it is no terminal; with a
/// return and a line feed between rows where it is.
pub proof fn law_lines_end(target: SnapshotOutputTarget, last: bool)
    ensures
        target is NonTty ==> line_end(target, last) == seq!['\n'],
        target is Tty && last ==> line_end(target, last) == Seq::<char>::empty(),
        target is Tty && !last ==> line_end(target, last) == seq!['\r', '\n'],
{
    reveal_strlit("\n");
    reveal_strlit("\r\n");
    assert("\n"@ =~= seq!['\n']);
    assert("\r\n"@ =~= seq!['\r', '\n']);
}

/// What comes of replacing a pattern: a text that does not hold it stays; one that begins with it has
/// what replaces it in its place, and goes on with the rest; and any other first character stays.
pub proof fn law_replacing(text: Seq<char>, pattern: Seq<char>, with: Seq<char>, first: char)
    requires
        pattern.len() > 0,
    ensures
        (forall|i: int|
            0 <= i < text.len() ==> !crate::snapshot::continues_with(
                #[trigger] text.skip(i),
                pattern,
            )) ==> crate::snapshot::replaced(text, pattern, with) == text,
        crate::snapshot::replaced(pattern + text, pattern, with) == with
            + crate::snapshot::replaced(text, pattern, with),
        first != pattern[0] ==> crate::snapshot::replaced(seq![first] + text, pattern, with)
            == seq![first] + crate::snapshot::replaced(text, pattern, with),
    decreases text.len(),
{
    let joined = pattern + text;
    assert(joined.take(pattern.len() as int) =~= pattern);
    assert(joined.skip(pattern.len() as int) =~= text);
    let other = seq![first] + text;
    assert(other.skip(1) =~= text);
    if first != pattern[0] && crate::snapshot::continues_with(other, pattern) {
        assert(other.take(pattern.len() as int)[0] == pattern[0]);
    }
    if forall|i: int|
        0 <= i < text.len() ==> !crate::snapshot::continues_with(#[trigger] text.skip(i), pattern) {
        if text.len() > 0 {
            assert(text.skip(0) =~= text);
            let rest = text.skip(1);
            assert forall|i: int| 0 <= i < rest.len() implies !crate::snapshot::continues_with(
                #[trigger] rest.skip(i),
                pattern,
            ) by {
                assert(rest.skip(i) =~= text.skip(i + 1));
            }
            law_replacing(rest, pattern, with, first);
            assert(seq![text[0]] + rest =~= text);
        }
    }
}

proof fn lemma_untouched(text: Seq<char>, pattern: Seq<char>, with: Seq<char>)
    requires
        pattern.len() > 0,
        forall|i: int| 0 <= i < text.len() ==> #[trigger] text[i] != pattern[0],
    ensures
        crate::snapshot::replaced(text, pattern, with) == text,
{
    assert forall|i: int| 0 <= i < text.len() implies !crate::snapshot::continues_with(
        #[trigger] text.skip(i),
        pattern,
    ) by {
        let rest = text.skip(i);
        if crate::snapshot::continues_with(rest, pattern) {
            assert(rest.take(pattern.len() as int)[0] == pattern[0]);
            assert(text[i] == pattern[0]);
        }
    }
    law_replacing(text, pattern, with, pattern[0]);
}

proof fn lemma_passed_over(first: char, text: Seq<char>, pattern: Seq<char>, with: Seq<char>)
    requires
        pattern.len() > 0,
        first != pattern[0],
    ensures
        crate::snapshot::replaced(seq![first] + text, pattern, with) == seq![first]
            + crate::snapshot::replaced(text, pattern, with),
{
    law_replacing(text, pattern, with, first);
}

proof fn lemma_put_in(text: Seq<char>, pattern: Seq<char>, with: Seq<char>)
    requires
        pattern.len() > 0,
    ensures
        crate::snapshot::replaced(pattern + text, pattern, with) == with
            + crate::snapshot::replaced(text, pattern, with),
{
    law_replacing(text, pattern, with, pattern[0]);
}

proof fn lemma_placed(before: Seq<char>, after: Seq<char>, pattern: Seq<char>, with: Seq<char>)
    requires
        pattern.len() > 0,
        forall|i: int| 0 <= i < before.len() ==> #[trigger] before[i] != pattern[0],
        forall|i: int| 0 <= i < after.len() ==> #[trigger] after[i] != pattern[0],
    ensures
        crate::snapshot::replaced(before + pattern + after, pattern, with) == before + with + after,
    decreases before.len(),
{
    if before.len() == 0 {
        lemma_put_in(after, pattern, with);
        lemma_untouched(after, pattern, with);
        assert(before + pattern + after =~= pattern + after);
        assert(before + with + after =~= with + after);
    } else {
        let rest = before.skip(1);
        lemma_placed(rest, after, pattern, with);
        lemma_passed_over(before[0], rest + pattern + after, pattern, with);
        assert(seq![before[0]] + (rest + pattern + after) =~= before + pattern + after);
        assert(seq![before[0]] + (rest + with + after) =~= before + with + after);
    }
}

proof fn lemma_other_untouched(
    before: Seq<char>,
    name: Seq<char>,
    after: Seq<char>,
    pattern: Seq<char>,
    with: Seq<char>,
    apart: int,
)
    requires
        0 <= apart < name.len(),
        apart < pattern.len(),
        name[apart] != pattern[apart],
        forall|i: int| 0 <= i < before.len() ==> #[trigger] before[i] != pattern[0],
        forall|i: int| 1 <= i < name.len() ==> #[trigger] name[i] != pattern[0],
        forall|i: int| 0 <= i < after.len() ==> #[trigger] after[i] != pattern[0],
    ensures
        crate::snapshot::replaced(before + name + after, pattern, with) == before + name + after,
{
    let text = before + name + after;
    assert forall|i: int| 0 <= i < text.len() implies !crate::snapshot::continues_with(
        #[trigger] text.skip(i),
        pattern,
    ) by {
        let rest = text.skip(i);
        if crate::snapshot::continues_with(rest, pattern) {
            let start = rest.take(pattern.len() as int);
            assert(start[0] == pattern[0]);
            assert(text[i] == pattern[0]);
            if i < before.len() {
                assert(text[i] == before[i]);
            } else if i == before.len() {
                assert(start[apart] == text[i + apart]);
                assert(text[i + apart] == name[apart]);
            } else if i < before.len() + name.len() {
                assert(text[i] == name[i - before.len()]);
            } else {
                assert(text[i] == after[i - before.len() - name.len()]);
            }
        }
    }
    law_replacing(text, pattern, with, pattern[0]);
}

/// What the words for a frame that is too small say: each of the four names in braces stands for its
/// own number, and all that stands round it stays as it is.
pub proof fn law_resize_words_name_the_sizes(
    before: Seq<char>,
    after: Seq<char>,
    required: crate::snapshot::FrameSize,
    actual: crate::snapshot::FrameSize,
)
    requires
        forall|i: int| 0 <= i < before.len() ==> #[trigger] before[i] != '{',
        forall|i: int| 0 <= i < after.len() ==> #[trigger] after[i] != '{',
    ensures
        crate::snapshot::resize_words(before + "{required_width}"@ + after, required, actual)
            == before + crate::text::numeral(required.width as int) + after,
        crate::snapshot::resize_words(before + "{required_height}"@ + after, required, actual)
            == before + crate::text::numeral(required.height as int) + after,
        crate::snapshot::resize_words(before + "{actual_width}"@ + after, required, actual) == before
            + crate::text::numeral(actual.width as int) + after,
        crate::snapshot::resize_words(before + "{actual_height}"@ + after, required, actual)
            == before + crate::text::numeral(actual.height as int) + after,
        crate::snapshot::resize_words(before, required, actual) == before,
{
    reveal_strlit("{required_width}");
    reveal_strlit("{required_height}");
    reveal_strlit("{actual_width}");
    reveal_strlit("{actual_height}");
    let names = seq![
        "{required_width}"@,
        "{required_height}"@,
        "{actual_width}"@,
        "{actual_height}"@,
    ];
    let numbers = seq![
        crate::text::numeral(required.width as int),
        crate::text::numeral(required.height as int),
        crate::text::numeral(actual.width as int),
        crate::text::numeral(actual.height as int),
    ];
    crate::text::law_numerals_are_short(required.width as int);
    crate::text::law_numerals_are_short(required.height as int);
    crate::text::law_numerals_are_short(actual.width as int);
    crate::text::law_numerals_are_short(actual.height as int);
    assert forall|k: int, l: int| 0 <= k < 4 && 0 <= l < 4 implies {
        let shown = before + #[trigger] numbers[k] + after;
        let named = before + names[k] + after;
        &&& crate::snapshot::replaced(shown, #[trigger] names[l], numbers[l]) == shown
        &&& k == l ==> crate::snapshot::replaced(named, names[l], numbers[l]) == shown
        &&& k != l ==> crate::snapshot::replaced(named, names[l], numbers[l]) == named
    } by {
        let shown = before + numbers[k] + after;
        assert(names[l][0] == '{');
        assert forall|i: int| 0 <= i < shown.len() implies #[trigger] shown[i] != '{' by {
            if i < before.len() {
                assert(shown[i] == before[i]);
            } else if i < before.len() + numbers[k].len() {
                assert(shown[i] == numbers[k][i - before.len()]);
                assert(crate::text::is_digit(numbers[k][i - before.len()]));
            } else {
                assert(shown[i] == after[i - before.len() - numbers[k].len()]);
            }
        }
        lemma_untouched(shown, names[l], numbers[l]);
        if k == l {
            lemma_placed(before, after, names[k], numbers[k]);
        } else {
            let apart: int = if (k < 2) == (l < 2) {
                if k < 2 {
                    10
                } else {
                    8
                }
            } else {
                1
            };
            assert(names[k][apart] != names[l][apart]);
            lemma_other_untouched(before, names[k], after, names[l], numbers[l], apart);
        }
    }
    assert(names[0] == "{required_width}"@ && names[1] == "{required_height}"@);
    assert(names[2] == "{actual_width}"@ && names[3] == "{actual_height}"@);
    assert(numbers[0] == crate::text::numeral(required.width as int));
    assert(numbers[1] == crate::text::numeral(required.height as int));
    assert(numbers[2] == crate::text::numeral(actual.width as int));
    assert(numbers[3] == crate::text::numeral(actual.height as int));
    lemma_untouched(before, names[0], numbers[0]);
    lemma_untouched(before, names[1], numbers[1]);
    lemma_untouched(before, names[2], numbers[2]);
    lemma_untouched(before, names[3], numbers[3]);
}

/// What is left of a text without its escape sequences: all of a text that has none; and of one
/// behind which a sequence stands, from its escape to the next `m`, what was left before.
pub proof fn law_escapes_leave_the_rest(text: Seq<char>, parameters: Seq<char>)
    requires
        !text.contains('\x1b'),
        !parameters.contains('m'),
    ensures
        crate::snapshot::without_escapes(text) == (text, false),
        crate::snapshot::without_escapes(text.push('\x1b') + parameters) == (text, true),
        crate::snapshot::without_escapes((text.push('\x1b') + parameters).push('m')) == (text, false),
    decreases text.len() + parameters.len(),
{
    let opened = text.push('\x1b') + parameters;
    assert(opened.push('m').drop_last() =~= opened);
    if text.len() > 0 {
        let rest = text.drop_last();
        assert forall|i: int| 0 <= i < rest.len() implies #[trigger] rest[i] != '\x1b' by {
            assert(text[i] == rest[i]);
        }
        assert(text.contains(text.last()));
        law_escapes_leave_the_rest(rest, Seq::empty());
        assert(rest.push(text.last()) =~= text);
    }
    assert(crate::snapshot::without_escapes(text) == (text, false));
    if parameters.len() > 0 {
        let before = parameters.drop_last();
        assert forall|i: int| 0 <= i < before.len() implies #[trigger] before[i] != 'm' by {
            assert(parameters[i] == before[i]);
        }
        assert(parameters.contains(parameters.last()));
        law_escapes_leave_the_rest(text, before);
        assert(opened.drop_last() =~= text.push('\x1b') + before);
        assert(opened.last() == parameters.last());
        assert(opened.last() != 'm');
    } else {
        assert(opened =~= text.push('\x1b'));
        assert(opened.drop_last() =~= text);
        assert(opened.last() == '\x1b');
    }
    assert(crate::snapshot::without_escapes(opened) == (text, true));
    assert(opened.push('m').last() == 'm');
}

} // verus!
