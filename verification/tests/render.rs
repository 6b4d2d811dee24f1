use std::convert::Infallible;

use embedded_graphics_core::draw_target::DrawTarget;
use embedded_graphics_core::geometry::{OriginDimensions, Point, Size};
use embedded_graphics_core::pixelcolor::{Rgb565, RgbColor};
use embedded_graphics_core::primitives::Rectangle;
use embedded_graphics_core::Pixel;
use i_slint_renderer_software::Rgb565Pixel;
use slint_mipidsi_adapter::render::{frame_result, pixel_color};
use slint_mipidsi_adapter::{DisplayState, LineArea, LineColors, Rgb565Channels};

#[derive(Default)]
struct RecordingDisplay {
    pixels: Vec<Pixel<Rgb565>>,
}

impl OriginDimensions for RecordingDisplay {
    fn size(&self) -> Size {
        Size::new(4, 4)
    }
}

impl DrawTarget for RecordingDisplay {
    type Color = Rgb565;
    type Error = Infallible;

    fn draw_iter<I>(&mut self, pixels: I) -> Result<(), Self::Error>
    where
        I: IntoIterator<Item = Pixel<Self::Color>>,
    {
        self.pixels.extend(pixels);
        Ok(())
    }
}

fn fill(
    display: &mut RecordingDisplay,
    area: LineArea,
    colors: LineColors<'_>,
) -> Result<(), Infallible> {
    let area = Rectangle::new(
        Point::new(area.x, area.y),
        Size::new(area.width, area.height),
    );
    let colors = (0..colors.len()).map(|i| {
        let color = colors.color(i);
        Rgb565::new(color.r, color.g, color.b)
    });
    display.fill_contiguous(&area, colors)
}

fn pixels(bits: &[u16]) -> Vec<Rgb565Pixel> {
    bits.iter().map(|raw| Rgb565Pixel(*raw)).collect()
}

#[test]
fn line_renderer_writes_only_the_dirty_range() {
    let mut error = None;
    let mut state = DisplayState {
        display: RecordingDisplay::default(),
        line_buffer: vec![Rgb565Pixel::default(); 4],
    };

    state.process_line(
        &mut error,
        3,
        1..3,
        |line| {
            line[0] = Rgb565Pixel(0xf800);
            line[1] = Rgb565Pixel(0x07e0);
        },
        fill,
    );

    assert!(error.is_none());
    assert_eq!(
        state.display.pixels,
        [
            Pixel(Point::new(1, 3), Rgb565::RED),
            Pixel(Point::new(2, 3), Rgb565::GREEN),
        ]
    );
    assert_eq!(
        state.line_buffer,
        [
            Rgb565Pixel(0),
            Rgb565Pixel(0xf800),
            Rgb565Pixel(0x07e0),
            Rgb565Pixel(0),
        ]
    );
}

#[test]
fn the_first_error_of_a_frame_stops_the_drawing() {
    let mut error: Option<&str> = None;
    let mut state = DisplayState {
        display: Vec::<LineArea>::new(),
        line_buffer: pixels(&[0; 4]),
    };

    state.process_line(&mut error, 0, 0..4, |line| line[0].0 = 1, |drawn, area, _| {
        drawn.push(area);
        Ok(())
    });
    state.process_line(&mut error, 1, 1..2, |line| line[0].0 = 2, |drawn, area, _| {
        drawn.push(area);
        Err("bus")
    });
    state.process_line(&mut error, 2, 2..4, |line| line[1].0 = 3, |drawn, area, _| {
        drawn.push(area);
        Err("again")
    });

    assert_eq!(error, Some("bus"));
    assert_eq!(
        state.display,
        [
            LineArea { x: 0, y: 0, width: 4, height: 1 },
            LineArea { x: 1, y: 1, width: 1, height: 1 },
        ]
    );
    assert_eq!(state.line_buffer, pixels(&[1, 2, 0, 3]));
    assert_eq!(frame_result(error), Err("bus"));
}

#[test]
fn the_display_gets_what_was_rendered() {
    let mut error: Option<Infallible> = None;
    let mut state = DisplayState {
        display: Vec::<Rgb565Channels>::new(),
        line_buffer: pixels(&[9, 8, 7, 6]),
    };

    state.process_line(
        &mut error,
        0,
        1..3,
        |line| {
            assert_eq!(line, pixels(&[8, 7]));
            line[1].0 = 0x1234;
        },
        |written, _, colors| {
            written.extend((0..colors.len()).map(|i| colors.color(i)));
            Ok(())
        },
    );

    assert_eq!(
        state.display,
        [
            Rgb565Channels { r: 0, g: 0, b: 8 },
            Rgb565Channels { r: 2, g: 17, b: 20 },
        ]
    );
    assert_eq!(state.line_buffer, pixels(&[9, 8, 0x1234, 6]));
}

#[test]
fn an_empty_range_is_handed_on() {
    let mut error: Option<Infallible> = None;
    let mut state = DisplayState {
        display: None,
        line_buffer: pixels(&[0; 2]),
    };

    state.process_line(&mut error, 5, 2..2, |line| assert!(line.is_empty()), |seen, area, _| {
        *seen = Some(area);
        Ok(())
    });

    assert_eq!(state.display, Some(LineArea { x: 2, y: 5, width: 0, height: 1 }));
}

#[test]
fn one_blank_line_is_kept() {
    let state = DisplayState::new((), 320);

    assert_eq!(state.line_buffer, vec![Rgb565Pixel(0); 320]);
    let state = DisplayState::new((), 0);
    assert!(state.line_buffer.is_empty());
}

#[test]
fn pixels_have_five_six_and_five_bits() {
    assert_eq!(pixel_color(0xf800), Rgb565Channels { r: 31, g: 0, b: 0 });
    assert_eq!(pixel_color(0x07e0), Rgb565Channels { r: 0, g: 63, b: 0 });
    assert_eq!(pixel_color(0x001f), Rgb565Channels { r: 0, g: 0, b: 31 });
    assert_eq!(pixel_color(0x1234), Rgb565Channels { r: 2, g: 17, b: 20 });
}

#[test]
fn every_pixel_keeps_its_color() {
    for raw in 0..=u16::MAX {
        let color = pixel_color(raw);
        assert_eq!(
            u16::from(color.r) * 2048 + u16::from(color.g) * 32 + u16::from(color.b),
            raw
        );
    }
}

#[test]
fn a_frame_without_error_succeeds() {
    assert_eq!(frame_result::<&str>(None), Ok(()));
}

#[test]
fn an_error_is_not_carried_into_the_next_frame() {
    let mut state = DisplayState {
        display: Vec::<i32>::new(),
        line_buffer: pixels(&[0; 4]),
    };
    let mut frame = |refused: i32| {
        let error = state.in_frame(|state: &mut DisplayState<Vec<i32>>, error: &mut Option<&str>| {
            for line in 0..3 {
                state.process_line(error, line, 0..4, |_| (), |drawn, area, _| {
                    drawn.push(area.y);
                    if area.y == refused {
                        Err("bus")
                    } else {
                        Ok(())
                    }
                });
            }
        });
        (error, std::mem::take(&mut state.display))
    };

    assert_eq!(frame(1), (Some("bus"), vec![0, 1]));
    assert_eq!(frame(-1), (None, vec![0, 1, 2]));
}

#[test]
fn a_frame_without_lines_succeeds() {
    let mut state = DisplayState::new((), 4);

    let error: Option<&str> = state.in_frame(|_: &mut DisplayState<()>, _: &mut Option<&str>| ());

    assert_eq!(error, None);
}
