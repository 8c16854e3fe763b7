use vstd::prelude::*;

use crate::buffer::{Buffer, Color, ModuleError, Region};
use crate::format::{clock_line, clock_line_spec, date_line, date_line_spec};
use crate::text::{is_layout, uniform_widths, Font};
use crate::time::{weekday_from_monday, weekday_index, LocalTime};

verus! {

/// Point size of the date line.
pub const DATE_SIZE: u32 = 64;

/// Point size of the time line.
pub const CLOCK_SIZE: u32 = 256;

/// The date line's place in the widget: a strip across the top.
pub open spec fn date_region() -> Region {
    Region { x: 0, y: 0, width: 448, height: 64 }
}

/// The time line's place in the widget: below the date line.
pub open spec fn clock_region() -> Region {
    Region { x: 0, y: 64, width: 640, height: 256 }
}

/// Cell widths of the time line `HH:MM`: digits wide, the colon narrow, so that
/// the columns never shift from one minute to the next.
pub open spec fn clock_widths() -> Seq<u32> {
    seq![120u32, 120u32, 64u32, 120u32, 120u32]
}

/// The ink of both lines.
pub open spec fn white() -> Color {
    Color { r: 255, g: 255, b: 255, a: 255 }
}

/// Whether a clock that last showed `shown` (`first` if it has shown nothing yet)
/// must redraw for `time`.
pub open spec fn is_dirty(shown: LocalTime, first: bool, time: LocalTime, force: bool) -> bool {
    !time.same_minute(shown) || force || first
}

/// The state after an update and whether it made the clock dirty.
pub open spec fn update_spec(state: (LocalTime, bool), time: LocalTime, force: bool) -> ((LocalTime, bool), bool) {
    if is_dirty(state.0, state.1, time, force) {
        ((time, false), true)
    } else {
        (state, false)
    }
}

/// Once a clock has taken in a time, a further update in the same minute of the
/// same day, unforced, is clean and leaves the state as it was.
pub proof fn lemma_same_minute_update_is_clean(
    state: (LocalTime, bool),
    first: LocalTime,
    first_force: bool,
    second: LocalTime,
)
    requires
        second.same_minute(first),
    ensures
        ({
            let after_first = update_spec(state, first, first_force).0;
            let (after_second, dirty) = update_spec(after_first, second, false);
            !dirty && after_second == after_first
        }),
{
}

/// The first update of a fresh clock is dirty, whatever the time and the flag.
pub proof fn lemma_first_update_is_dirty(now: LocalTime, time: LocalTime, force: bool)
    ensures
        update_spec((now, true), time, force).1,
{
}

/// An update in another minute, hour or day than the one shown is dirty and
/// stores exactly that time.
pub proof fn lemma_new_minute_is_dirty(state: (LocalTime, bool), time: LocalTime, force: bool)
    requires
        !time.same_minute(state.0),
    ensures
        update_spec(state, time, force) == ((time, false), true),
{
}

/// A forced update is dirty, even for the very snapshot shown.
pub proof fn lemma_forced_update_is_dirty(state: (LocalTime, bool), time: LocalTime)
    ensures
        update_spec(state, time, true) == ((time, false), true),
{
}

/// A widget that shows the date and the time of day, redrawn once a minute.
pub struct Clock {
    pub cur_time: LocalTime,
    pub first_draw: bool,
    pub clock_cache: Font,
    pub date_cache: Font,
}

impl Clock {
    /// The snapshot last shown, and whether nothing has been shown yet.
    pub open spec fn state(&self) -> (LocalTime, bool) {
        (self.cur_time, self.first_draw)
    }

    /// A clock that has shown nothing yet, with its two text caches.
    pub fn new(now: LocalTime) -> (c: Clock)
        ensures
            c.state() == (now, true),
            c.date_cache.size == DATE_SIZE,
            c.clock_cache.size == CLOCK_SIZE,
            c.date_cache.text@.len() == 0,
            c.clock_cache.text@.len() == 0,
    {
        Clock {
            cur_time: now,
            first_draw: true,
            date_cache: Font::new(DATE_SIZE),
            clock_cache: Font::new(CLOCK_SIZE),
        }
    }

    /// Takes in the current time and says whether the clock must be redrawn:
    /// when the date, the hour or the minute has changed, when `force` is set, or
    /// on the first call. A redraw stores `time` as the snapshot shown; otherwise
    /// nothing changes.
    pub fn update(&mut self, time: &LocalTime, force: bool) -> (r: Result<bool, ModuleError>)
        ensures
            r == Ok::<bool, ModuleError>(update_spec(old(self).state(), *time, force).1),
            final(self).state() == update_spec(old(self).state(), *time, force).0,
            final(self).date_cache == old(self).date_cache,
            final(self).clock_cache == old(self).clock_cache,
    {
        if time.year != self.cur_time.year || time.month != self.cur_time.month || time.day
            != self.cur_time.day || time.hour != self.cur_time.hour || time.minute
            != self.cur_time.minute || force || self.first_draw {
            self.cur_time = *time;
            self.first_draw = false;
            Ok(true)
        } else {
            Ok(false)
        }
    }

    /// Renders `time` into `buf`: the whole buffer is cleared to `bg`, the date
    /// line is laid out in its strip and the time line, on fixed cell widths,
    /// below it. Returns the whole buffer as the one damaged rectangle. Fails
    /// where the buffer is too small for either line. The snapshot is untouched.
    pub fn draw(&mut self, buf: &mut Buffer, bg: &Color, time: &LocalTime) -> (r: Result<
        Vec<(i32, i32, i32, i32)>,
        ModuleError,
    >)
        requires
            old(buf).wf(),
            time.wf(),
        ensures
            r.is_ok() <==> (old(buf).width >= 640 && old(buf).height >= 320),
            r matches Err(e) ==> e == ModuleError::OutOfBounds,
            final(self).state() == old(self).state(),
            final(self).date_cache.size == old(self).date_cache.size,
            final(self).clock_cache.size == old(self).clock_cache.size,
            final(buf).wf(),
            final(buf).same_shape(old(buf)),
            r matches Ok(damage) ==> {
                &&& damage@ == seq![
                    (old(buf).origin_x, old(buf).origin_y, old(buf).width as i32, old(buf).height as i32),
                ]
                &&& forall|px: int, py: int|
                    0 <= px < old(buf).width && 0 <= py < old(buf).height ==> #[trigger] final(buf).pixel(px, py) == *bg
                &&& final(self).date_cache.text@ == date_line_spec(
                    weekday_index(time.year as int, time.month as int, time.day as int),
                    time.day as nat,
                    time.month as nat,
                    time.year as int,
                )
                &&& is_layout(
                    final(self).date_cache.layout@,
                    date_region(),
                    final(self).date_cache.text@,
                    uniform_widths(final(self).date_cache.text@.len() as int, old(self).date_cache.advance),
                    white(),
                )
                &&& final(self).clock_cache.text@ == clock_line_spec(time.hour as nat, time.minute as nat)
                &&& is_layout(
                    final(self).clock_cache.layout@,
                    clock_region(),
                    final(self).clock_cache.text@,
                    clock_widths(),
                    white(),
                )
            },
    {
        let white = Color::new(255, 255, 255, 255);
        buf.memset(*bg);

        let date_view = buf.subdimensions((0, 0, 448, 64))?;
        let weekday = weekday_from_monday(time.year, time.month, time.day).unwrap();
        let date_text = date_line(weekday, time.day, time.month, time.year);
        self.date_cache.draw_text(buf, &date_view, bg, &white, &date_text)?;

        let clock_view = buf.subdimensions((0, 64, 288 * 2 + 64, 256))?;
        let widths: [u32; 5] = [120, 120, 64, 120, 120];
        assert(widths@ == clock_widths());
        let clock_text = clock_line(time.hour, time.minute);
        self.clock_cache.draw_text_fixed_width(
            buf,
            &clock_view,
            bg,
            &white,
            widths.as_slice(),
            &clock_text,
        )?;

        Ok(vec![buf.get_signed_bounds()])
    }

    /// Accepts an input event and ignores it: a clock has nothing to react to.
    pub fn input<E>(&mut self, event: E)
        ensures
            *final(self) == *old(self),
    {
    }
}

} // verus!
