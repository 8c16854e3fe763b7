use clock_module::buffer::{Buffer, Color, ModuleError, Region};
use clock_module::clock::Clock;
use clock_module::format::{clock_line, date_line};
use clock_module::text::{Font, Glyph};
use clock_module::time::{delay_to_next_minute, LocalTime};

fn at(year: i32, month: u32, day: u32, hour: u32, minute: u32, second: u32) -> LocalTime {
    LocalTime::new(year, month, day, hour, minute, second, 0).unwrap()
}

fn text(v: &[char]) -> String {
    v.iter().collect()
}

fn gray() -> Color {
    Color::new(10, 20, 30, 255)
}

#[test]
fn minute_change_is_dirty() {
    let mut c = Clock::new(at(2025, 9, 5, 10, 29, 59));
    assert_eq!(c.update(&at(2025, 9, 5, 10, 29, 59), false), Ok(true));
    let t = at(2025, 9, 5, 10, 30, 0);
    assert_eq!(c.update(&t, false), Ok(true));
    assert_eq!(c.cur_time, t);
    assert!(!c.first_draw);
}

#[test]
fn same_minute_is_clean() {
    let mut c = Clock::new(at(2025, 9, 5, 10, 30, 15));
    let shown = at(2025, 9, 5, 10, 30, 15);
    assert_eq!(c.update(&shown, false), Ok(true));
    assert_eq!(c.update(&at(2025, 9, 5, 10, 30, 45), false), Ok(false));
    assert_eq!(c.cur_time, shown);
    assert_eq!(c.update(&at(2025, 9, 5, 10, 30, 59), false), Ok(false));
    assert_eq!(c.cur_time, shown);
}

#[test]
fn first_update_is_dirty_for_the_same_time() {
    let t = at(2025, 9, 5, 10, 30, 15);
    let mut c = Clock::new(t);
    assert!(c.first_draw);
    assert_eq!(c.update(&t, false), Ok(true));
    assert!(!c.first_draw);
    assert_eq!(c.update(&t, false), Ok(false));
}

#[test]
fn forced_update_is_dirty() {
    let t = at(2025, 9, 5, 10, 30, 15);
    let mut c = Clock::new(t);
    assert_eq!(c.update(&t, false), Ok(true));
    assert_eq!(c.update(&t, true), Ok(true));
    assert_eq!(c.cur_time, t);
}

#[test]
fn hour_and_date_changes_are_dirty() {
    let mut c = Clock::new(at(2025, 9, 5, 10, 30, 0));
    assert_eq!(c.update(&at(2025, 9, 5, 10, 30, 0), false), Ok(true));
    assert_eq!(c.update(&at(2025, 9, 5, 11, 30, 0), false), Ok(true));
    assert_eq!(c.update(&at(2025, 9, 6, 11, 30, 0), false), Ok(true));
    assert_eq!(c.cur_time, at(2025, 9, 6, 11, 30, 0));
}

#[test]
fn subdimensions_is_bounds_checked() {
    let buf = Buffer::new(0, 0, 448, 320, gray());
    assert_eq!(
        buf.subdimensions((0, 0, 448, 64)),
        Ok(Region { x: 0, y: 0, width: 448, height: 64 })
    );
    assert_eq!(buf.subdimensions((0, 0, 449, 64)), Err(ModuleError::OutOfBounds));
    assert_eq!(buf.subdimensions((1, 0, 448, 64)), Err(ModuleError::OutOfBounds));
    assert_eq!(buf.subdimensions((0, 300, 10, 21)), Err(ModuleError::OutOfBounds));
    assert_eq!(buf.subdimensions((0, u32::MAX, 10, 2)), Err(ModuleError::OutOfBounds));
}

#[test]
fn nested_subdimensions_offset_from_parent() {
    let buf = Buffer::new(5, 7, 100, 50, gray());
    let outer = buf.subdimensions((10, 20, 40, 20)).unwrap();
    let inner = outer.subdimensions((5, 5, 35, 15)).unwrap();
    assert_eq!(inner, Region { x: 15, y: 25, width: 35, height: 15 });
    assert_eq!(outer.subdimensions((5, 5, 36, 15)), Err(ModuleError::OutOfBounds));
    assert_eq!(buf.get_signed_bounds(), (5, 7, 100, 50));
}

#[test]
fn fill_touches_only_its_region() {
    let mut buf = Buffer::new(0, 0, 8, 4, gray());
    let red = Color::new(255, 0, 0, 255);
    let r = buf.subdimensions((2, 1, 3, 2)).unwrap();
    buf.fill(&r, red);
    assert_eq!(buf.pixel_at(2, 1), Some(red));
    assert_eq!(buf.pixel_at(4, 2), Some(red));
    assert_eq!(buf.pixel_at(5, 2), Some(gray()));
    assert_eq!(buf.pixel_at(2, 3), Some(gray()));
    assert_eq!(buf.pixel_at(1, 1), Some(gray()));
    assert_eq!(buf.pixel_at(8, 0), None);
    buf.memset(red);
    assert_eq!(buf.pixel_at(7, 3), Some(red));
}

#[test]
fn draw_renders_date_and_time() {
    let t = at(2025, 9, 5, 9, 5, 0);
    let mut c = Clock::new(t);
    assert_eq!(c.update(&t, false), Ok(true));
    let bg = gray();
    let mut buf = Buffer::new(3, 4, 640, 320, Color::new(0, 0, 0, 0));
    let damage = c.draw(&mut buf, &bg, &t).unwrap();
    assert_eq!(damage, vec![(3, 4, 640, 320)]);
    assert_eq!(text(&c.date_cache.text), "Fri, 05/09/2025");
    assert_eq!(text(&c.clock_cache.text), "09:05");
    let xs: Vec<u32> = c.clock_cache.layout.iter().map(|g| g.x).collect();
    assert_eq!(xs, vec![0, 120, 240, 304, 424]);
    assert_eq!(c.date_cache.layout.len(), 15);
    assert_eq!(c.date_cache.layout[1].x, 28);
    assert_eq!(c.clock_cache.layout[0].y, 64);
    assert_eq!(buf.pixel_at(0, 0), Some(bg));
    assert_eq!(buf.pixel_at(639, 319), Some(bg));
    assert_eq!(c.cur_time, t);
    assert!(!c.first_draw);
}

#[test]
fn draw_uses_the_given_time() {
    let shown = at(2025, 9, 5, 9, 5, 0);
    let mut c = Clock::new(shown);
    let mut buf = Buffer::new(0, 0, 640, 320, gray());
    c.draw(&mut buf, &gray(), &at(2024, 2, 29, 23, 59, 0)).unwrap();
    assert_eq!(text(&c.date_cache.text), "Thu, 29/02/2024");
    assert_eq!(text(&c.clock_cache.text), "23:59");
    assert_eq!(c.cur_time, shown);
    assert!(c.first_draw);
}

#[test]
fn draw_fails_on_small_buffer() {
    let t = at(2025, 9, 5, 9, 5, 0);
    let mut c = Clock::new(t);
    let mut buf = Buffer::new(0, 0, 448, 320, gray());
    assert_eq!(c.draw(&mut buf, &gray(), &t), Err(ModuleError::OutOfBounds));
    let mut buf = Buffer::new(0, 0, 640, 319, gray());
    assert_eq!(c.draw(&mut buf, &gray(), &t), Err(ModuleError::OutOfBounds));
}

#[test]
fn date_line_formats_fields() {
    assert_eq!(text(&date_line(0, 1, 12, 2023)), "Mon, 01/12/2023");
    assert_eq!(text(&date_line(6, 31, 1, 987)), "Sun, 31/01/ 987");
    assert_eq!(text(&date_line(2, 9, 3, -44)), "Wed, 09/03/ -44");
    assert_eq!(text(&date_line(3, 10, 10, 262142)), "Thu, 10/10/262142");
    assert_eq!(text(&date_line(4, 5, 6, 0)), "Fri, 05/06/   0");
}

#[test]
fn clock_line_pads_fields() {
    assert_eq!(text(&clock_line(0, 0)), "00:00");
    assert_eq!(text(&clock_line(9, 5)), "09:05");
    assert_eq!(text(&clock_line(23, 59)), "23:59");
}

#[test]
fn fixed_width_needs_a_width_per_character() {
    let mut f = Font::new(256);
    let mut buf = Buffer::new(0, 0, 640, 256, gray());
    let r = buf.bounds();
    let white = Color::new(255, 255, 255, 255);
    let line: Vec<char> = "12:34".chars().collect();
    assert_eq!(
        f.draw_text_fixed_width(&mut buf, &r, &gray(), &white, &[120, 120, 64, 120], &line),
        Err(ModuleError::MissingWidth)
    );
    assert!(f.layout.is_empty());
    assert_eq!(
        f.draw_text_fixed_width(&mut buf, &r, &gray(), &white, &[120, 120, 64, 120, 120], &line),
        Ok(())
    );
    assert_eq!(
        f.layout[2],
        Glyph { ch: ':', x: 240, y: 0, width: 64, height: 256, color: white }
    );
}

#[test]
fn text_past_the_right_edge_is_clipped() {
    let mut f = Font::new(64);
    assert_eq!(f.advance, 28);
    let mut buf = Buffer::new(0, 0, 100, 64, gray());
    let r = buf.subdimensions((10, 0, 60, 64)).unwrap();
    let line: Vec<char> = "abcdef".chars().collect();
    let white = Color::new(255, 255, 255, 255);
    assert_eq!(f.draw_text(&mut buf, &r, &gray(), &white, &line), Ok(()));
    let xs: Vec<u32> = f.layout.iter().map(|g| g.x).collect();
    assert_eq!(xs, vec![10, 38, 66]);
    assert_eq!(text(&f.text), "abcdef");
}

#[test]
fn delay_reaches_the_next_minute() {
    let t = LocalTime::new(2025, 9, 5, 10, 29, 59, 250_000_000).unwrap();
    assert_eq!(delay_to_next_minute(&t), 750_000_000);
    assert_eq!(delay_to_next_minute(&at(2025, 9, 5, 10, 30, 0)), 60_000_000_000);
    assert_eq!(delay_to_next_minute(&at(2025, 9, 5, 10, 30, 15)), 45_000_000_000);
    let last = LocalTime::new(2025, 9, 5, 10, 30, 59, 999_999_999).unwrap();
    assert_eq!(delay_to_next_minute(&last), 1);
}

#[test]
fn local_time_rejects_bad_fields() {
    assert!(LocalTime::new(2023, 2, 29, 0, 0, 0, 0).is_none());
    assert!(LocalTime::new(2024, 2, 29, 0, 0, 0, 0).is_some());
    assert!(LocalTime::new(1900, 2, 29, 0, 0, 0, 0).is_none());
    assert!(LocalTime::new(2000, 2, 29, 0, 0, 0, 0).is_some());
    assert!(LocalTime::new(2024, 4, 31, 0, 0, 0, 0).is_none());
    assert!(LocalTime::new(2024, 13, 1, 0, 0, 0, 0).is_none());
    assert!(LocalTime::new(2024, 1, 1, 24, 0, 0, 0).is_none());
    assert!(LocalTime::new(2024, 1, 1, 0, 60, 0, 0).is_none());
    assert!(LocalTime::new(262143, 1, 1, 0, 0, 0, 0).is_none());
    assert!(LocalTime::new(2024, 1, 1, 0, 0, 0, 2_000_000_000).is_none());
    let leap = LocalTime::new(2016, 12, 31, 23, 59, 59, 1_500_000_000).unwrap();
    assert_eq!(leap.nanosecond, 999_999_999);
}
