use fccli::error::{AppError, ProviderError, RenderError, SanitizedCause};
use fccli::model::{HistoryRequest, Market, ProviderCapabilities, Timeframe};
use fccli::snapshot::{
    after_layout, check_style, history_request_limit, output_error, plan_snapshot, resize_message, serialize_frame, CellStyle,
    Frame, FrameCell, FrameColor, FrameSize, RenderPolicy, SnapshotFit, SnapshotOutputTarget, SnapshotPlan,
    SnapshotStep,
};

fn offered(limit: u16) -> ProviderCapabilities {
    ProviderCapabilities {
        markets: vec![Market::Spot],
        timeframes: vec![Timeframe::Minute1, Timeframe::Hour1],
        history_page_limit: limit,
    }
}

fn tty(width: u16, height: u16) -> SnapshotOutputTarget {
    SnapshotOutputTarget::Tty {
        physical_size: FrameSize { width, height },
    }
}

fn cell(symbol: &str, foreground: Option<FrameColor>, background: Option<FrameColor>) -> FrameCell {
    FrameCell {
        symbol: symbol.to_owned(),
        style: CellStyle {
            foreground,
            background,
            ..CellStyle::plain()
        },
    }
}

#[test]
fn a_terminal_keeps_one_row_for_the_prompt() {
    assert_eq!(
        tty(80, 24).effective_size(),
        FrameSize {
            width: 80,
            height: 23
        }
    );
    assert_eq!(
        tty(80, 0).effective_size(),
        FrameSize {
            width: 80,
            height: 0
        }
    );
    assert_eq!(
        SnapshotOutputTarget::NonTty.effective_size(),
        FrameSize {
            width: 120,
            height: 36
        }
    );
}

#[test]
fn the_history_limit_is_bounded_by_the_page() {
    assert_eq!(
        history_request_limit(&offered(1000), Market::Spot, Timeframe::Hour1),
        Ok(500)
    );
    assert_eq!(
        history_request_limit(&offered(300), Market::Spot, Timeframe::Hour1),
        Ok(300)
    );
    assert_eq!(
        history_request_limit(&offered(300), Market::Perpetual, Timeframe::Hour1),
        Err(ProviderError::Configuration("provider does not support market"))
    );
    assert_eq!(
        history_request_limit(&offered(300), Market::Spot, Timeframe::Day1),
        Err(ProviderError::Configuration(
            "provider does not support timeframe"
        ))
    );
    assert_eq!(
        history_request_limit(&offered(0), Market::Spot, Timeframe::Hour1),
        Err(ProviderError::Configuration(
            "provider history page limit must be non-zero"
        ))
    );
}

#[test]
fn plain_output_must_be_style_free() {
    assert_eq!(
        plan_snapshot(
            &offered(300),
            Market::Spot,
            Timeframe::Hour1,
            SnapshotOutputTarget::NonTty,
            RenderPolicy::Color
        ),
        Err(AppError::Render(RenderError::Invariant(
            "non-TTY snapshot output must be style-free"
        )))
    );
    assert_eq!(
        plan_snapshot(
            &offered(300),
            Market::Spot,
            Timeframe::Hour1,
            tty(10, 5),
            RenderPolicy::Color
        ),
        Ok(SnapshotPlan {
            effective_size: FrameSize {
                width: 10,
                height: 4
            },
            request: HistoryRequest::latest(300).unwrap(),
        })
    );
    assert_eq!(
        plan_snapshot(
            &offered(0),
            Market::Spot,
            Timeframe::Hour1,
            tty(10, 5),
            RenderPolicy::Color
        ),
        Err(AppError::Provider(ProviderError::Configuration(
            "provider history page limit must be non-zero"
        )))
    );
}

#[test]
fn the_resize_message_names_both_sizes() {
    assert_eq!(
        resize_message(
            "need {required_width}x{required_height}, have {actual_width}x{actual_height}; \
             {required_width} {unknown}",
            FrameSize {
                width: 80,
                height: 24
            },
            FrameSize {
                width: 7,
                height: 0
            },
        ),
        "need 80x24, have 7x0; 80 {unknown}"
    );
}

#[test]
fn plain_frames_are_their_symbols() {
    let frame = Frame {
        rows: vec![
            vec![
                cell("a", Some(FrameColor::Red), None),
                cell("β", None, Some(FrameColor::Blue)),
            ],
            vec![cell("c", None, None)],
        ],
    };
    assert_eq!(
        serialize_frame(&frame, SnapshotOutputTarget::NonTty, RenderPolicy::StyleFree),
        "aβ\nc\n"
    );
    assert_eq!(
        serialize_frame(&frame, tty(2, 3), RenderPolicy::StyleFree),
        "aβ\r\nc"
    );
}

#[test]
fn colors_are_written_where_they_change() {
    let frame = Frame {
        rows: vec![
            vec![
                cell("a", Some(FrameColor::Red), None),
                cell("b", Some(FrameColor::Red), None),
                cell("c", Some(FrameColor::Rgb(1, 20, 255)), Some(FrameColor::Indexed(7))),
            ],
            vec![cell("d", None, None)],
        ],
    };
    assert_eq!(
        serialize_frame(&frame, tty(3, 3), RenderPolicy::Color),
        "\x1b[0m\x1b[31mab\x1b[0m\x1b[38;2;1;20;255m\x1b[48;5;7mc\x1b[0m\r\nd"
    );
}

#[test]
fn colors_only_add_escape_sequences() {
    let frame = Frame {
        rows: vec![
            vec![
                cell("m", Some(FrameColor::LightRed), Some(FrameColor::Reset)),
                cell("β", Some(FrameColor::Indexed(200)), None),
            ],
            vec![cell("c", None, Some(FrameColor::Rgb(0, 1, 2)))],
        ],
    };
    let colored = serialize_frame(&frame, tty(2, 3), RenderPolicy::Color);
    let mut kept = String::new();
    let mut within = false;
    for character in colored.chars() {
        if within {
            within = character != 'm';
        } else if character == '\x1b' {
            within = true;
        } else {
            kept.push(character);
        }
    }
    assert_eq!(kept, serialize_frame(&frame, tty(2, 3), RenderPolicy::StyleFree));
}

#[test]
fn a_chart_that_does_not_fit_is_never_fetched() {
    let plan = plan_snapshot(
        &offered(20),
        Market::Spot,
        Timeframe::Hour1,
        tty(10, 4),
        RenderPolicy::Color,
    )
    .unwrap();
    let template = "{required_width}x{required_height} > {actual_width}x{actual_height}";
    assert_eq!(
        after_layout(&plan, SnapshotFit::Ready, template),
        SnapshotStep::Fetch(HistoryRequest::latest(20).unwrap())
    );
    assert_eq!(
        after_layout(
            &plan,
            SnapshotFit::Pending {
                required: FrameSize { width: 40, height: 12 },
                actual: FrameSize { width: 10, height: 3 },
            },
            template
        ),
        SnapshotStep::Refuse {
            message: "40x12 > 10x3".to_owned(),
            error: AppError::Render(RenderError::InsufficientSpace),
        }
    );
}

#[test]
fn the_style_is_checked_by_itself() {
    let refused = Err(AppError::Render(RenderError::Invariant(
        "non-TTY snapshot output must be style-free",
    )));
    assert_eq!(check_style(SnapshotOutputTarget::NonTty, RenderPolicy::Color), refused);
    assert_eq!(check_style(SnapshotOutputTarget::NonTty, RenderPolicy::StyleFree), Ok(()));
    assert_eq!(check_style(tty(1, 1), RenderPolicy::Color), Ok(()));
}

#[test]
fn every_named_color_has_its_code() {
    let codes = [
        (FrameColor::Reset, 39, 49),
        (FrameColor::Black, 30, 40),
        (FrameColor::Red, 31, 41),
        (FrameColor::Green, 32, 42),
        (FrameColor::Yellow, 33, 43),
        (FrameColor::Blue, 34, 44),
        (FrameColor::Magenta, 35, 45),
        (FrameColor::Cyan, 36, 46),
        (FrameColor::Gray, 37, 47),
        (FrameColor::DarkGray, 90, 100),
        (FrameColor::LightRed, 91, 101),
        (FrameColor::LightGreen, 92, 102),
        (FrameColor::LightYellow, 93, 103),
        (FrameColor::LightBlue, 94, 104),
        (FrameColor::LightMagenta, 95, 105),
        (FrameColor::LightCyan, 96, 106),
        (FrameColor::White, 97, 107),
    ];
    for (color, foreground, background) in codes {
        let frame = Frame {
            rows: vec![vec![cell("x", Some(color), Some(color))]],
        };
        assert_eq!(
            serialize_frame(&frame, tty(1, 2), RenderPolicy::Color),
            format!("\x1b[0m\x1b[{foreground}m\x1b[{background}mx\x1b[0m")
        );
    }
}

#[test]
fn a_failed_write_is_an_output_error() {
    assert_eq!(
        output_error(),
        AppError::Render(RenderError::Output(SanitizedCause::Io))
    );
}
