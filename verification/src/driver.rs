//! The output driver's state machine. The driver owns the device color and,
//! once per iteration, takes the most recently requested color (or reuses the
//! last one when no new request arrived), smooths the device color toward it,
//! and frames the result for the wire. The surrounding binary runs the loop:
//! it polls the channel, performs the serial write, and drops the frame on a
//! write error.

use vstd::prelude::*;
use crate::color::Rgb8;
use crate::color::black;
use crate::color::smooth_spec;
use crate::color::smooth_color;
use crate::config::MAX_LED_COUNT;
use crate::frame::is_frame_for;
use crate::frame::header_spec;
use crate::frame::encode_header;
use crate::frame::complete_frame;

verus! {

/// The color an iteration works toward: the newly received request if one
/// arrived, otherwise the previous request again.
pub open spec fn requested(received: Option<Rgb8>, last: Rgb8) -> Rgb8 {
    match received {
        Some(c) => c,
        None => last,
    }
}

/// The driver's cross-iteration state: the smoothed device color and the
/// last requested color, for the LED strip it serves.
pub struct OutputDriver {
    led_count: usize,
    header: Vec<u8>,
    device_color: Rgb8,
    last_request: Rgb8,
}

impl OutputDriver {
    /// Well-formedness: the LED count stays inside the protocol's range, and
    /// the header held since startup is the one for that count.
    pub closed spec fn wf(self) -> bool {
        &&& 1 <= self.led_count <= MAX_LED_COUNT
        &&& self.header@ == header_spec(self.led_count as int)
    }

    /// The LED count the driver frames for.
    pub closed spec fn led_count(self) -> int {
        self.led_count as int
    }

    /// The device color: what the strip was last told to show.
    pub closed spec fn device_color(self) -> Rgb8 {
        self.device_color
    }

    /// The last requested color, reused when an iteration sees no new
    /// request.
    pub closed spec fn last_request(self) -> Rgb8 {
        self.last_request
    }

    /// A fresh driver: the header is computed once, here, and both colors
    /// start black.
    pub fn new(led_count: usize) -> (d: OutputDriver)
        requires
            1 <= led_count <= MAX_LED_COUNT,
        ensures
            d.wf(),
            d.led_count() == led_count,
            d.device_color() == black(),
            d.last_request() == black(),
    {
        OutputDriver {
            led_count,
            header: encode_header(led_count),
            device_color: Rgb8 { r: 0, g: 0, b: 0 },
            last_request: Rgb8 { r: 0, g: 0, b: 0 },
        }
    }

    /// One driver iteration: adopt the received request (or reuse the last
    /// one), smooth the device color toward it, and return the device frame
    /// that shows the new device color.
    pub fn step(&mut self, received: Option<Rgb8>) -> (frame: Vec<u8>)
        requires
            old(self).wf(),
        ensures
            final(self).wf(),
            final(self).led_count() == old(self).led_count(),
            final(self).last_request() == requested(received, old(self).last_request()),
            final(self).device_color() == smooth_spec(
                old(self).device_color(),
                requested(received, old(self).last_request()),
            ),
            is_frame_for(frame@, old(self).led_count(), final(self).device_color()),
    {
        let req = match received {
            Some(c) => c,
            None => self.last_request,
        };
        let next = smooth_color(self.device_color, req);
        self.device_color = next;
        self.last_request = req;
        complete_frame(&self.header, self.led_count, next)
    }
}

} // verus!
