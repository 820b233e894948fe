//! The size of the screen and the pace of the display.

use vstd::prelude::*;

verus! {

/// Microseconds in a second, times the fixed-point scale: a fixed-point
/// rate in hertz divides it into microseconds per frame.
pub const MICROSECONDS_SCALED: i64 = 1_000_000_000_000;

/// The screen in cells, and the time one frame of the display takes, in
/// microseconds.
#[derive(Clone, Copy, PartialEq, Eq, Structural, Debug)]
pub struct DisplaySettings {
    pub width: usize,
    pub height: usize,
    pub render_frame_duration: u64,
}

/// The refresh rate to go by: the detected one where it is positive, the
/// default one otherwise.
pub open spec fn refresh_rate(detected: Option<i64>, default_fps: i64) -> i64 {
    match detected {
        Some(rate) => if rate > 0 {
            rate
        } else {
            default_fps
        },
        None => default_fps,
    }
}

/// The microseconds one frame takes at a fixed-point rate in hertz.
pub open spec fn frame_duration(rate: i64) -> u64
    recommends
        rate > 0,
{
    (MICROSECONDS_SCALED / rate) as u64
}

impl DisplaySettings {
    /// The settings for a terminal of `cols` by `rows` cells, on a display
    /// whose fixed-point refresh rate was `detected`, if any was. Returns
    /// nothing where neither that rate nor the default one is positive.
    pub fn detect(cols: u16, rows: u16, detected: Option<i64>, default_fps: i64) -> (settings:
        Option<Self>)
        ensures
            refresh_rate(detected, default_fps) <= 0 <==> settings.is_none(),
            refresh_rate(detected, default_fps) > 0 ==> settings == Some(
                DisplaySettings {
                    width: cols as usize,
                    height: rows as usize,
                    render_frame_duration: frame_duration(refresh_rate(detected, default_fps)),
                },
            ),
    {
        let rate = match detected {
            Some(rate) => if rate > 0 {
                rate
            } else {
                default_fps
            },
            None => default_fps,
        };
        if rate > 0 {
            Some(
                Self {
                    width: cols as usize,
                    height: rows as usize,
                    render_frame_duration: (MICROSECONDS_SCALED / rate) as u64,
                },
            )
        } else {
            None
        }
    }

    /// Takes over a new size of the terminal.
    pub fn update_size(&mut self, cols: u16, rows: u16)
        ensures
            *final(self) == (DisplaySettings {
                width: cols as usize,
                height: rows as usize,
                render_frame_duration: old(self).render_frame_duration,
            }),
    {
        self.width = cols as usize;
        self.height = rows as usize;
    }
}

} // verus!
