//! The rendering configuration that the capture task and the application
//! loop share.

use vstd::prelude::*;
use crate::camera::{available_ids, Camera, CameraView, ProbeOutcome};
use crate::mode::{CamWindowScale, ImageConvertType};

verus! {

/// The size of the terminal: width, height.
pub type TerminalSize = (u16, u16);

/// The configuration of the frame handler. It is replaced field by field,
/// never in part.
pub struct FrameHandlerConfig {
    /// Image convert type (camera mode)
    pub image_convert_type: ImageConvertType,
    /// Terminal size (width, height)
    pub terminal_size: TerminalSize,
    /// Camera window scale
    pub cam_window_scale: CamWindowScale,
    /// The probed cameras and the active one
    pub camera: Camera,
    /// Whether the keys are locked
    pub is_locked: bool,
}

/// What a configuration holds, as mathematical values.
pub struct ConfigView {
    pub image_convert_type: ImageConvertType,
    pub terminal_size: TerminalSize,
    pub cam_window_scale: CamWindowScale,
    pub camera: CameraView,
    pub is_locked: bool,
}

impl ConfigView {
    /// The size (width, height) to which a captured frame is resized: the
    /// terminal's size divided by the window scale, and twice that in the
    /// half-block mode, which reads two by two pixels for each cell.
    pub open spec fn capture_size(self) -> (i32, i32) {
        let window = self.cam_window_scale.scaled(self.terminal_size);
        if self.image_convert_type.is_half_block() {
            ((2 * window.0) as i32, (2 * window.1) as i32)
        } else {
            (window.0 as i32, window.1 as i32)
        }
    }
}

impl View for FrameHandlerConfig {
    type V = ConfigView;

    open spec fn view(&self) -> ConfigView {
        ConfigView {
            image_convert_type: self.image_convert_type,
            terminal_size: self.terminal_size,
            cam_window_scale: self.cam_window_scale,
            camera: self.camera@,
            is_locked: self.is_locked,
        }
    }
}

impl FrameHandlerConfig {
    /// Makes the configuration that the application starts with: the
    /// half-block mode in a small window, unlocked, with the cameras that the
    /// probe found.
    pub fn new(terminal_size: TerminalSize, outcomes: &Vec<ProbeOutcome>) -> (config: Self)
        requires
            outcomes@.len() <= i32::MAX,
        ensures
            config.image_convert_type == ImageConvertType::ColorfulHalfBlock,
            config.terminal_size == terminal_size,
            config.cam_window_scale == CamWindowScale::Small,
            !config.is_locked,
            config.camera@.ids == available_ids(outcomes@, outcomes@.len()),
            config.camera@.active_index == (if config.camera@.ids.len() > 0 {
                Some(0int)
            } else {
                None
            }),
            config.camera@.well_formed(),
    {
        Self {
            image_convert_type: ImageConvertType::ColorfulHalfBlock,
            terminal_size,
            cam_window_scale: CamWindowScale::Small,
            camera: Camera::default(outcomes),
            is_locked: false,
        }
    }

    /// The size (width, height) to which a captured frame is resized.
    pub fn capture_size(&self) -> (size: (i32, i32))
        ensures
            size == self@.capture_size(),
            0 <= size.0 <= 2 * u16::MAX,
            0 <= size.1 <= 2 * u16::MAX,
    {
        let window: (u16, u16) = self.cam_window_scale.scaled(self.terminal_size);
        if self.image_convert_type.is_half_block() {
            (2 * (window.0 as i32), 2 * (window.1 as i32))
        } else {
            (window.0 as i32, window.1 as i32)
        }
    }
}

} // verus!
