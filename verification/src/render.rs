//! Rendering: one line at a time, straight from the renderer to the display.

use core::ops::Range;

use embedded_graphics_core::pixelcolor::raw::RawU16;
use embedded_graphics_core::pixelcolor::{Rgb565, RgbColor};
use i_slint_renderer_software::Rgb565Pixel;
use vstd::prelude::*;

use crate::error::error_of;

verus! {

/// The pixel of Slint's software renderer.
#[verifier::external_type_specification]
#[verifier::external_body]
pub struct ExRgb565Pixel(Rgb565Pixel);

/// The sixteen bits of a pixel: what the field of `Rgb565Pixel` holds.
pub uninterp spec fn pixel_bits(pixel: Rgb565Pixel) -> u16;

/// The field of `Rgb565Pixel`, which holds the bits of the pixel.
#[verifier::external_body]
fn raw_bits(pixel: &Rgb565Pixel) -> (raw: u16)
    ensures
        raw == pixel_bits(*pixel),
{
    pixel.0
}

/// `Rgb565Pixel::default`: a pixel with no bit set.
#[verifier::external_body]
fn blank_pixel() -> (pixel: Rgb565Pixel)
    ensures
        pixel_bits(pixel) == 0,
{
    Rgb565Pixel::default()
}

/// The channels of a color with five red, six green and five blue bits.
#[derive(Clone, Copy, Debug, PartialEq, Eq, Structural)]
pub struct Rgb565Channels {
    /// Red, from 0 to 31.
    pub r: u8,
    /// Green, from 0 to 63.
    pub g: u8,
    /// Blue, from 0 to 31.
    pub b: u8,
}

/// The color of a raw pixel: the upper five bits are red, the next six green, the lower five blue.
pub open spec fn channels(raw: u16) -> Rgb565Channels {
    Rgb565Channels { r: (raw / 2048) as u8, g: (raw / 32 % 64) as u8, b: (raw % 32) as u8 }
}

/// The colors of pixels.
pub open spec fn colors_of(pixels: Seq<Rgb565Pixel>) -> Seq<Rgb565Channels> {
    Seq::new(pixels.len(), |i: int| channels(pixel_bits(pixels[i])))
}

/// `Rgb565` made from a `RawU16`, and the channels that its `RgbColor` implementation gives.
#[verifier::external_body]
fn rgb565_channels(raw: u16) -> (color: Rgb565Channels)
    ensures
        color == channels(raw),
{
    let color: Rgb565 = RawU16::new(raw).into();
    Rgb565Channels { r: color.r(), g: color.g(), b: color.b() }
}

/// Returns the color of a raw pixel. No bit of it is lost.
pub fn pixel_color(raw: u16) -> (color: Rgb565Channels)
    ensures
        color == channels(raw),
        color.r == raw / 2048,
        color.g == raw / 32 % 64,
        color.b == raw % 32,
        color.r * 2048 + color.g * 32 + color.b == raw,
{
    rgb565_channels(raw)
}

/// The colors of the rendered columns of a line, from left to right.
pub struct LineColors<'a> {
    pixels: &'a [Rgb565Pixel],
}

impl<'a> View for LineColors<'a> {
    type V = Seq<Rgb565Channels>;

    closed spec fn view(&self) -> Seq<Rgb565Channels> {
        colors_of(self.pixels@)
    }
}

impl<'a> LineColors<'a> {
    /// Takes the colors of pixels.
    pub fn new(pixels: &'a [Rgb565Pixel]) -> (colors: Self)
        ensures
            colors@ == colors_of(pixels@),
    {
        LineColors { pixels }
    }

    /// Returns the number of colors.
    pub fn len(&self) -> (len: usize)
        ensures
            len == self@.len(),
    {
        self.pixels.len()
    }

    /// Returns the color of the column `i`.
    pub fn color(&self, i: usize) -> (color: Rgb565Channels)
        requires
            i < self@.len(),
        ensures
            color == self@[i as int],
    {
        pixel_color(raw_bits(&self.pixels[i]))
    }
}

/// Returns the outcome of a frame: the error that was kept while its lines were written, if any.
pub fn frame_result<E>(error: Option<E>) -> (result: Result<(), E>)
    ensures
        result == (match error {
            Some(e) => Err::<(), E>(e),
            None => Ok(()),
        }),
{
    match error {
        Some(e) => Err(e),
        None => Ok(()),
    }
}

/// What a line does to the display and to the error that is kept for the frame. `answer` is what
/// the display answered when the line was written; once an error is kept, no line is written.
pub open spec fn line_written<DISPLAY, E>(
    display: DISPLAY,
    error: Option<E>,
    answer: Option<Result<(), E>>,
    display_after: DISPLAY,
    error_after: Option<E>,
) -> bool {
    match answer {
        Some(result) => error is None && error_after == error_of(result),
        None => error is Some && error_after == error && display_after == display,
    }
}

/// A rectangle on the display, in pixels.
#[derive(Clone, Copy, Debug, PartialEq, Eq, Structural)]
pub struct LineArea {
    /// The leftmost column.
    pub x: i32,
    /// The topmost row.
    pub y: i32,
    /// The number of columns.
    pub width: u32,
    /// The number of rows.
    pub height: u32,
}

/// The area of the columns `start` up to `end` of a line: one row.
pub open spec fn line_area(line: usize, start: usize, end: usize) -> LineArea {
    LineArea { x: start as i32, y: line as i32, width: (end - start) as u32, height: 1 }
}

/// A sequence with the items from `start` on replaced.
pub open spec fn with_range<P>(line: Seq<P>, start: int, items: Seq<P>) -> Seq<P> {
    line.subrange(0, start) + items + line.subrange(start + items.len(), line.len() as int)
}

/// `IndexMut::index_mut` of a vector with a range: the items `start` up to `end`, to be changed in
/// place. A slice keeps its length, and the other items of the vector keep their values.
#[verifier::external_body]
fn columns_mut<P>(line: &mut Vec<P>, start: usize, end: usize) -> (columns: &mut [P])
    requires
        start <= end <= old(line)@.len(),
    ensures
        columns@ == old(line)@.subrange(start as int, end as int),
        final(columns)@.len() == columns@.len(),
        final(line)@ == with_range(old(line)@, start as int, final(columns)@),
{
    &mut line[start..end]
}

/// An initialized display and the one line of pixels that is kept for it.
pub struct DisplayState<DISPLAY> {
    /// The display.
    pub display: DISPLAY,
    /// One line of pixels.
    pub line_buffer: Vec<Rgb565Pixel>,
}

impl<DISPLAY> DisplayState<DISPLAY> {
    /// Whether the line buffer is one blank line of `width` pixels.
    pub open spec fn is_blank(self, width: u32) -> bool {
        &&& self.line_buffer@.len() == width
        &&& forall|i: int| 0 <= i < width ==> pixel_bits(#[trigger] self.line_buffer@[i]) == 0
    }

    /// Keeps one blank line for a display that is `width` pixels wide.
    pub fn new(display: DISPLAY, width: u32) -> (state: Self)
        ensures
            state.display == display,
            state.is_blank(width),
            state.line_buffer@.len() == width,
            forall|i: int| 0 <= i < width ==> pixel_bits(#[trigger] state.line_buffer@[i]) == 0,
    {
        let blank = blank_pixel();
        let mut line_buffer: Vec<Rgb565Pixel> = Vec::new();
        let mut count: u32 = 0;
        while count < width
            invariant
                count <= width,
                pixel_bits(blank) == 0,
                line_buffer@.len() == count,
                forall|i: int| 0 <= i < count ==> pixel_bits(#[trigger] line_buffer@[i]) == 0,
            decreases width - count,
        {
            line_buffer.push(blank);
            count += 1;
        }
        DisplayState { display, line_buffer }
    }

    /// Draws one frame with `lines`, which processes its lines on this display, and returns the error
    /// that was kept for them. Each frame starts with no error kept.
    pub fn in_frame<E, G: FnOnce(&mut Self, &mut Option<E>)>(&mut self, lines: G) -> (error: Option<
        E,
    >)
        requires
            forall|state: &mut Self, slot: &mut Option<E>|
                *state == *old(self) && *slot is None ==> #[trigger] lines.requires((state, slot)),
        ensures
            exists|state: &mut Self, slot: &mut Option<E>| #[trigger]
                lines.ensures((state, slot), ()) && *state == *old(self) && *final(state)
                    == *final(self) && *slot is None && *final(slot) == error,
    {
        let mut error: Option<E> = None;
        let slot = &mut error;
        assert(lines.requires((self, slot)));
        lines(self, slot);
        error
    }

    /// Renders the columns `range` of a line into the line buffer and hands them to the display.
    ///
    /// `render_fn` fills the columns. Unless `error` already holds an error of this frame, `fill`
    /// then writes their colors to the display; if it fails, `error` keeps its error.
    pub fn process_line<E, F, D>(
        &mut self,
        error: &mut Option<E>,
        line: usize,
        range: Range<usize>,
        render_fn: F,
        fill: D,
    ) where
        F: FnOnce(&mut [Rgb565Pixel]),
        D: FnOnce(&mut DISPLAY, LineArea, LineColors<'_>) -> Result<(), E>,

        requires
            range.start <= range.end <= old(self).line_buffer@.len(),
            forall|dirty: &mut [Rgb565Pixel]|
                dirty@ == old(self).line_buffer@.subrange(range.start as int, range.end as int)
                    ==> #[trigger] render_fn.requires((dirty,)),
            *old(error) is None ==> forall|display: &mut DISPLAY, colors: LineColors<'_>|
                *display == old(self).display && colors@.len() == range.end - range.start
                    ==> #[trigger] fill.requires(
                    (display, line_area(line, range.start, range.end), colors),
                ),
        ensures
            final(self).line_buffer@.len() == old(self).line_buffer@.len(),
            exists|dirty: &mut [Rgb565Pixel]| #[trigger]
                render_fn.ensures((dirty,), ()) && dirty@ == old(self).line_buffer@.subrange(
                    range.start as int,
                    range.end as int,
                ) && final(dirty)@.len() == dirty@.len() && final(self).line_buffer@ == with_range(
                    old(self).line_buffer@,
                    range.start as int,
                    final(dirty)@,
                ),
            exists|answer: Option<Result<(), E>>| #[trigger]
                line_written(
                    old(self).display,
                    *old(error),
                    answer,
                    final(self).display,
                    *final(error),
                ) && (answer matches Some(result) ==> exists|
                    display: &mut DISPLAY,
                    colors: LineColors<'_>,
                | #[trigger]
                    fill.ensures((display, line_area(line, range.start, range.end), colors), result)
                        && *display == old(self).display && *final(display) == final(self).display
                        && colors@ == colors_of(
                        final(self).line_buffer@.subrange(range.start as int, range.end as int),
                    )),
            *old(error) is Some ==> *final(error) == *old(error) && final(self).display == old(
                self,
            ).display,
            *old(error) is None ==> exists|
                display: &mut DISPLAY,
                area: LineArea,
                colors: LineColors<'_>,
                result: Result<(), E>,
            | #[trigger]
                fill.ensures((display, area, colors), result) && *display == old(self).display
                    && *final(display) == final(self).display && (range.start <= i32::MAX ==> area.x
                    as int == range.start as int) && (line <= i32::MAX ==> area.y as int
                    == line as int) && (range.end - range.start <= u32::MAX ==> area.width as int
                    == range.end - range.start) && area.height == 1 && colors@.len() == range.end
                    - range.start && (forall|i: int|
                    0 <= i < range.end - range.start ==> (#[trigger] colors@[i]).r * 2048
                        + colors@[i].g * 32 + colors@[i].b == pixel_bits(
                        final(self).line_buffer@[range.start + i],
                    )) && match result {
                    Ok(_) => *final(error) is None,
                    Err(e) => *final(error) == Some(e),
                },
    {
        let dirty = columns_mut(&mut self.line_buffer, range.start, range.end);
        assert(render_fn.requires((dirty,)));
        render_fn(dirty);
        if error.is_some() {
            assert(line_written(old(self).display, *old(error), None, self.display, *error));
            return ;
        }
        let area = LineArea {
            x: range.start as i32,
            y: line as i32,
            width: (range.end - range.start) as u32,
            height: 1,
        };
        let colors = LineColors::new(&self.line_buffer.as_slice()[range.start..range.end]);
        assert(area == line_area(line, range.start, range.end));
        let display = &mut self.display;
        assert(fill.requires((display, area, colors)));
        let result = fill(display, area, colors);
        let ghost answer = Some(result);
        match result {
            Ok(()) => {},
            Err(e) => {
                *error = Some(e);
            },
        }
        assert(line_written(old(self).display, *old(error), answer, self.display, *error));
    }
}

/// A line of a frame that was processed: the display and the kept error before and after it, and
/// what the display answered, if the line was written to it.
pub struct ProcessedLine<DISPLAY, E> {
    pub display: DISPLAY,
    pub error: Option<E>,
    pub answer: Option<Result<(), E>>,
    pub display_after: DISPLAY,
    pub error_after: Option<E>,
}

impl<DISPLAY, E> ProcessedLine<DISPLAY, E> {
    /// Whether the line was processed as [`line_written`] says.
    pub open spec fn done(self) -> bool {
        line_written(self.display, self.error, self.answer, self.display_after, self.error_after)
    }
}

/// A frame that was drawn: the error that was kept before its first line, its lines, and the error
/// that was kept after them.
pub struct Frame<DISPLAY, E> {
    pub slot: Option<E>,
    pub lines: Seq<ProcessedLine<DISPLAY, E>>,
    pub error: Option<E>,
}

impl<DISPLAY, E> Frame<DISPLAY, E> {
    /// Whether each line went on where the one before it ended.
    pub open spec fn processed(self) -> bool {
        &&& forall|i: int| 0 <= i < self.lines.len() ==> (#[trigger] self.lines[i]).done()
        &&& forall|i: int, j: int|
            0 <= i && j == i + 1 && j < self.lines.len() ==> (#[trigger] self.lines[j]).error == (
            #[trigger] self.lines[i]).error_after && self.lines[j].display
                == self.lines[i].display_after
        &&& if self.lines.len() == 0 {
            self.error == self.slot
        } else {
            self.lines[0].error == self.slot && self.lines.last().error_after == self.error
        }
    }

    /// Whether the frame was drawn as [`DisplayState::in_frame`] does it, with no error kept before.
    pub open spec fn was_drawn(self) -> bool {
        self.slot is None && self.processed()
    }
}

/// The first error among the answers of the display, if there is one.
pub open spec fn first_error<DISPLAY, E>(lines: Seq<ProcessedLine<DISPLAY, E>>) -> Option<E>
    decreases lines.len(),
{
    if lines.len() == 0 {
        None
    } else {
        match (first_error(lines.drop_last()), lines.last().answer) {
            (Some(error), _) => Some(error),
            (None, Some(Err(error))) => Some(error),
            _ => None,
        }
    }
}

/// The error of a frame is the first one that the display answered in it, every line up to that one
/// was written, and after it the display is left alone.
pub proof fn a_frame_fails_with_its_first_error<DISPLAY, E>(frame: Frame<DISPLAY, E>)
    requires
        frame.was_drawn(),
    ensures
        frame.error == first_error(frame.lines),
        frame.error is None ==> forall|i: int|
            0 <= i < frame.lines.len() ==> (#[trigger] frame.lines[i]).answer == Some(
                Ok::<(), E>(()),
            ),
        frame.error matches Some(error) ==> exists|n: int|
            0 <= n < frame.lines.len() && (#[trigger] frame.lines[n]).answer == Some(
                Err::<(), E>(error),
            ) && (forall|i: int|
                0 <= i < n ==> (#[trigger] frame.lines[i]).answer == Some(Ok::<(), E>(()))) && (
            forall|i: int|
                n < i < frame.lines.len() ==> (#[trigger] frame.lines[i]).answer is None
                    && frame.lines[i].display_after == frame.lines[n].display_after),
    decreases frame.lines.len(),
{
    let lines = frame.lines;
    if lines.len() > 0 {
        let earlier = lines.drop_last();
        let last = lines.len() - 1;
        let before = Frame { slot: frame.slot, lines: earlier, error: lines[last].error };
        assert(lines[last].done());
        assert(forall|i: int| 0 <= i < earlier.len() ==> earlier[i] == #[trigger] lines[i]);
        if last > 0 {
            assert(earlier.last() == lines[last - 1]);
            assert(lines[last].error == lines[last - 1].error_after);
            assert(lines[last].display == lines[last - 1].display_after);
        }
        assert(before.processed()) by {
            assert forall|i: int, j: int|
                0 <= i && j == i + 1 && j < earlier.len() implies (#[trigger] earlier[j]).error == (
            #[trigger] earlier[i]).error_after && earlier[j].display
                == earlier[i].display_after by {
                assert(earlier[i] == lines[i] && earlier[j] == lines[j]);
            }
        }
        a_frame_fails_with_its_first_error(before);
        match first_error(earlier) {
            Some(error) => {
                let n = choose|n: int|
                    0 <= n < earlier.len() && (#[trigger] earlier[n]).answer == Some(
                        Err::<(), E>(error),
                    ) && (forall|i: int|
                        0 <= i < n ==> (#[trigger] earlier[i]).answer == Some(Ok::<(), E>(()))) && (
                    forall|i: int|
                        n < i < earlier.len() ==> (#[trigger] earlier[i]).answer is None
                            && earlier[i].display_after == earlier[n].display_after);
                assert(lines[n] == earlier[n]);
                assert forall|i: int| 0 <= i < n implies (#[trigger] lines[i]).answer == Some(
                    Ok::<(), E>(()),
                ) by {
                    assert(earlier[i] == lines[i]);
                }
                assert forall|i: int| n < i < lines.len() implies (#[trigger] lines[i]).answer is None
                    && lines[i].display_after == lines[n].display_after by {
                    if i < last {
                        assert(earlier[i] == lines[i]);
                    } else if last - 1 > n {
                        assert(earlier[last - 1] == lines[last - 1]);
                    }
                }
            },
            None => {
                assert forall|i: int| 0 <= i < last implies (#[trigger] lines[i]).answer == Some(
                    Ok::<(), E>(()),
                ) by {
                    assert(earlier[i] == lines[i]);
                }
                if let Some(Ok(unit)) = lines[last].answer {
                    assert(unit == ());
                }
            },
        }
    }
}

/// Replacing a range of a line keeps the line's length and every item outside the range.
pub proof fn range_is_replaced_alone<P>(line: Seq<P>, start: int, items: Seq<P>, i: int)
    requires
        0 <= start,
        start + items.len() <= line.len(),
        0 <= i < line.len(),
    ensures
        with_range(line, start, items).len() == line.len(),
        start <= i < start + items.len() ==> with_range(line, start, items)[i] == items[i - start],
        !(start <= i < start + items.len()) ==> with_range(line, start, items)[i] == line[i],
{
}

} // verus!
