//! The sky behind the scene: a day and a dusk mode, each with four colour
//! stops from the zenith down to the horizon.

use vstd::prelude::*;
use crate::color::Color;

verus! {

/// The sky and its mode.
pub struct Skybox {
    pub is_day: bool,
}

/// The colours between which a sky is blended, from the zenith down.
#[derive(Debug, Clone, Copy, PartialEq, Eq, Structural)]
pub struct SkyStops {
    pub top: Color,
    pub middle_top: Color,
    pub middle_bottom: Color,
    pub horizon: Color,
}

/// The stops of the day sky: blue above, white at the horizon.
pub open spec fn day_stops() -> SkyStops {
    SkyStops {
        top: Color { r: 135, g: 206, b: 235 },
        middle_top: Color { r: 176, g: 224, b: 230 },
        middle_bottom: Color { r: 250, g: 235, b: 215 },
        horizon: Color { r: 255, g: 255, b: 255 },
    }
}

/// The stops of the dusk sky: dark red above, orange at the horizon.
pub open spec fn dusk_stops() -> SkyStops {
    SkyStops {
        top: Color { r: 138, g: 68, b: 94 },
        middle_top: Color { r: 126, g: 67, b: 95 },
        middle_bottom: Color { r: 248, g: 90, b: 62 },
        horizon: Color { r: 255, g: 119, b: 51 },
    }
}

impl Skybox {
    /// A sky in day mode.
    pub fn new() -> (sky: Skybox)
        ensures
            sky.is_day,
    {
        Skybox { is_day: true }
    }

    /// Switches between day and dusk.
    pub fn toggle_day_night(&mut self)
        ensures
            final(self).is_day == !old(self).is_day,
    {
        self.is_day = !self.is_day;
    }

    /// The colour stops of the current mode.
    pub fn stops(&self) -> (stops: SkyStops)
        ensures
            stops == (if self.is_day {
                day_stops()
            } else {
                dusk_stops()
            }),
    {
        if self.is_day {
            SkyStops {
                top: Color::new(135, 206, 235),
                middle_top: Color::new(176, 224, 230),
                middle_bottom: Color::new(250, 235, 215),
                horizon: Color::new(255, 255, 255),
            }
        } else {
            SkyStops {
                top: Color::new(138, 68, 94),
                middle_top: Color::new(126, 67, 95),
                middle_bottom: Color::new(248, 90, 62),
                horizon: Color::new(255, 119, 51),
            }
        }
    }
}

} // verus!
