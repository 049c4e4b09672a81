//! The rendering modes and the scale of the camera window.

use vstd::prelude::*;

verus! {

/// How a frame is turned into cells. Exactly one mode is active at a time.
#[derive(Clone, Copy, Debug, PartialEq, Eq, Structural)]
pub enum ImageConvertType {
    /// Two colors per cell, from a block of two by two pixels.
    ColorfulHalfBlock,
    /// A solid block in the pixel's color.
    Colorful,
    /// A solid block in the gray of the pixel's intensity.
    GrayScale,
    /// A white glyph whose density follows the intensity.
    GrayScaleThreshold,
    /// A white solid block or a space.
    Threshold,
}

impl ImageConvertType {
    /// The mode that follows this one in the cycle.
    pub open spec fn spec_next(self) -> ImageConvertType {
        match self {
            ImageConvertType::ColorfulHalfBlock => ImageConvertType::Colorful,
            ImageConvertType::Colorful => ImageConvertType::GrayScale,
            ImageConvertType::GrayScale => ImageConvertType::GrayScaleThreshold,
            ImageConvertType::GrayScaleThreshold => ImageConvertType::Threshold,
            ImageConvertType::Threshold => ImageConvertType::ColorfulHalfBlock,
        }
    }

    /// The mode reached from this one by `steps` switches.
    pub open spec fn advance(self, steps: nat) -> ImageConvertType
        decreases steps,
    {
        if steps == 0 {
            self
        } else {
            self.advance((steps - 1) as nat).spec_next()
        }
    }

    /// The mode that follows this one in the cycle.
    #[verifier::when_used_as_spec(spec_next)]
    pub fn next(self) -> (mode: ImageConvertType)
        ensures
            mode == self.spec_next(),
    {
        match self {
            ImageConvertType::ColorfulHalfBlock => ImageConvertType::Colorful,
            ImageConvertType::Colorful => ImageConvertType::GrayScale,
            ImageConvertType::GrayScale => ImageConvertType::GrayScaleThreshold,
            ImageConvertType::GrayScaleThreshold => ImageConvertType::Threshold,
            ImageConvertType::Threshold => ImageConvertType::ColorfulHalfBlock,
        }
    }

    /// Whether the mode reads blocks of two by two pixels, so that a frame
    /// gives half as many cells as it has pixels in each direction.
    pub open spec fn spec_is_half_block(self) -> bool {
        self == ImageConvertType::ColorfulHalfBlock
    }

    /// Whether the mode reads blocks of two by two pixels.
    #[verifier::when_used_as_spec(spec_is_half_block)]
    pub fn is_half_block(self) -> (b: bool)
        ensures
            b == self.spec_is_half_block(),
    {
        match self {
            ImageConvertType::ColorfulHalfBlock => true,
            _ => false,
        }
    }
}

/// Switching modes runs through a cycle of period five: five switches lead
/// back to the mode they started from, and fewer do not.
pub proof fn lemma_mode_cycle(mode: ImageConvertType)
    ensures
        mode.advance(5) == mode,
        forall|steps: nat| 0 < steps < 5 ==> mode.advance(steps) != mode,
{
    reveal_with_fuel(ImageConvertType::advance, 6);
}

/// Every mode is reached from every other within four switches.
pub proof fn lemma_mode_cycle_reaches(from: ImageConvertType, to: ImageConvertType)
    ensures
        exists|steps: nat| steps < 5 && from.advance(steps) == to,
{
    reveal_with_fuel(ImageConvertType::advance, 6);
    assert(from.advance(0) == to || from.advance(1) == to || from.advance(2) == to
        || from.advance(3) == to || from.advance(4) == to);
}

/// The scale of the camera window: the number by which the terminal's size
/// is divided.
#[derive(Clone, Copy, Debug, PartialEq, Eq, Structural)]
pub enum CamWindowScale {
    /// The whole terminal.
    Full,
    /// Half of the terminal in each direction.
    Small,
}

impl CamWindowScale {
    /// The divisor that the scale stands for; it is never zero.
    pub open spec fn spec_divisor(self) -> u16 {
        match self {
            CamWindowScale::Full => 1,
            CamWindowScale::Small => 2,
        }
    }

    /// The divisor that the scale stands for.
    #[verifier::when_used_as_spec(spec_divisor)]
    pub fn divisor(self) -> (d: u16)
        ensures
            d == self.spec_divisor(),
            d > 0,
    {
        match self {
            CamWindowScale::Full => 1,
            CamWindowScale::Small => 2,
        }
    }

    /// A size divided by the scale, each side rounded down.
    pub open spec fn spec_scaled(self, size: (u16, u16)) -> (u16, u16) {
        (size.0 / self.divisor(), size.1 / self.divisor())
    }

    /// Divides a size (width, height) by the scale.
    #[verifier::when_used_as_spec(spec_scaled)]
    pub fn scaled(self, size: (u16, u16)) -> (scaled: (u16, u16))
        ensures
            scaled == self.spec_scaled(size),
    {
        let divisor: u16 = self.divisor();
        (size.0 / divisor, size.1 / divisor)
    }

    /// The other scale.
    pub open spec fn spec_toggled(self) -> CamWindowScale {
        match self {
            CamWindowScale::Small => CamWindowScale::Full,
            CamWindowScale::Full => CamWindowScale::Small,
        }
    }

    /// The other scale.
    #[verifier::when_used_as_spec(spec_toggled)]
    pub fn toggled(self) -> (scale: CamWindowScale)
        ensures
            scale == self.spec_toggled(),
    {
        match self {
            CamWindowScale::Small => CamWindowScale::Full,
            CamWindowScale::Full => CamWindowScale::Small,
        }
    }
}

} // verus!
