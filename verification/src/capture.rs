//! The capture task as a state machine: what to ask of the camera at each
//! tick, and what to do with what came back.

use vstd::prelude::*;
use ratatui::text::Text;
use crate::config::{ConfigView, FrameHandlerConfig};
use crate::frame::{Frame, FrameView, PixelFormat};
use crate::mode::ImageConvertType;
use crate::render::{convert_frame_into_ascii, grid_cols, grid_rows, rendered_rows, spec_fits};
use crate::text::text_rows;

verus! {

/// The time between two ticks of the capture task, in milliseconds.
pub const TICK_MILLIS: u64 = 50;

/// The intensity above which a pixel of a binary frame is set.
pub const BINARY_CUTOFF: u8 = 128;

/// The intensity of a set pixel of a binary frame.
pub const BINARY_MAX: u8 = 255;

/// What is done to a resized frame before it is rendered.
#[derive(Clone, Copy, Debug, PartialEq, Eq, Structural)]
pub enum Preprocess {
    /// Nothing: the frame keeps its colors.
    Keep,
    /// The colors are turned into intensities.
    GrayScale,
    /// The colors are turned into intensities, and each intensity into
    /// `BINARY_MAX` where it lies above `BINARY_CUTOFF`, into 0 elsewhere.
    Binary,
}

impl Preprocess {
    /// What a mode asks for: the two colorful modes read colors, the two
    /// gray modes intensities, the threshold mode a binary frame.
    pub open spec fn spec_of_mode(mode: ImageConvertType) -> Preprocess {
        match mode {
            ImageConvertType::Colorful | ImageConvertType::ColorfulHalfBlock => Preprocess::Keep,
            ImageConvertType::GrayScale | ImageConvertType::GrayScaleThreshold => Preprocess::GrayScale,
            ImageConvertType::Threshold => Preprocess::Binary,
        }
    }

    /// Finds what a mode asks for.
    #[verifier::when_used_as_spec(spec_of_mode)]
    pub fn of_mode(mode: ImageConvertType) -> (preprocess: Preprocess)
        ensures
            preprocess == Preprocess::spec_of_mode(mode),
    {
        match mode {
            ImageConvertType::Colorful | ImageConvertType::ColorfulHalfBlock => Preprocess::Keep,
            ImageConvertType::GrayScale | ImageConvertType::GrayScaleThreshold => Preprocess::GrayScale,
            ImageConvertType::Threshold => Preprocess::Binary,
        }
    }

    /// The format of the frame that comes out.
    pub open spec fn spec_format(self) -> PixelFormat {
        match self {
            Preprocess::Keep => PixelFormat::Color,
            Preprocess::GrayScale | Preprocess::Binary => PixelFormat::Gray,
        }
    }

    /// Tells the format of the frame that comes out.
    #[verifier::when_used_as_spec(spec_format)]
    pub fn format(self) -> (format: PixelFormat)
        ensures
            format == self.spec_format(),
    {
        match self {
            Preprocess::Keep => PixelFormat::Color,
            Preprocess::GrayScale | Preprocess::Binary => PixelFormat::Gray,
        }
    }
}

/// What a mode asks for gives a frame that can be rendered in that mode.
pub proof fn lemma_preprocess_fits(frame: FrameView, mode: ImageConvertType)
    requires
        frame.format == Preprocess::of_mode(mode).format(),
    ensures
        spec_fits(frame, mode),
{
}

/// A frame of the size that a configuration asks for is rendered as a grid
/// of the size of the camera window, in every mode: the half-block mode asks
/// for twice the size and gives half of it back.
pub proof fn lemma_grid_fills_window(config: ConfigView, frame: FrameView)
    requires
        frame.cols == config.capture_size().0,
        frame.rows == config.capture_size().1,
    ensures
        grid_cols(frame, config.image_convert_type) == config.cam_window_scale.scaled(
            config.terminal_size,
        ).0,
        grid_rows(frame, config.image_convert_type) == config.cam_window_scale.scaled(
            config.terminal_size,
        ).1,
        rendered_rows(frame, config.image_convert_type).len() == grid_rows(
            frame,
            config.image_convert_type,
        ),
        forall|y: int|
            0 <= y < grid_rows(frame, config.image_convert_type) ==> (#[trigger] rendered_rows(
                frame,
                config.image_convert_type,
            )[y]).len() == grid_cols(frame, config.image_convert_type),
{
}

/// What one tick asks of the camera, from one reading of the configuration.
#[derive(Clone, Copy, Debug, PartialEq, Eq, Structural)]
pub struct CapturePlan {
    /// The device to read from.
    pub device: i32,
    /// Whether the device has to be opened first, because another one, or
    /// none, is open.
    pub reopen: bool,
    /// The width to resize the frame to.
    pub width: i32,
    /// The height to resize the frame to.
    pub height: i32,
    /// What to do to the resized frame.
    pub preprocess: Preprocess,
    /// The mode to render the frame in.
    pub mode: ImageConvertType,
}

/// What went wrong with the active camera.
#[derive(Clone, Copy, Debug, PartialEq, Eq, Structural)]
pub enum Fault {
    /// The device could not be opened.
    Open,
    /// No frame could be read.
    Read,
    /// The frame could not be resized.
    Resize,
}

/// What happened since the last step of the task.
pub enum CaptureEvent {
    /// A tick began.
    Tick,
    /// The active camera failed.
    DeviceFault(Fault),
    /// The frame of this tick is there, made ready for the mode of the plan.
    Captured(Frame, ImageConvertType),
    /// The rendered frame was published.
    Sent,
    /// The rendered frame could not be published: the consumer is gone.
    Disconnected,
}

/// What the task does next.
pub enum CaptureAction {
    /// Wait for the next tick, with nothing to publish.
    AwaitTick,
    /// Read a frame as the plan says.
    Capture(CapturePlan),
    /// Publish the rendered frame.
    Publish(Text<'static>),
    /// End the task.
    Stop,
}

/// The state of the capture task: the device that is open, if any.
pub struct FrameHandler {
    active_cam_id: Option<i32>,
}

impl View for FrameHandler {
    type V = Option<i32>;

    closed spec fn view(&self) -> Option<i32> {
        self.active_cam_id
    }
}

/// The plan of a tick: `None` where no camera is selected.
pub open spec fn plan_of(open_device: Option<i32>, config: ConfigView) -> Option<CapturePlan> {
    match config.camera.cam_id() {
        Some(device) => Some(
            CapturePlan {
                device,
                reopen: open_device != Some(device),
                width: config.capture_size().0,
                height: config.capture_size().1,
                preprocess: Preprocess::of_mode(config.image_convert_type),
                mode: config.image_convert_type,
            },
        ),
        None => None,
    }
}

/// The device that is open after an event: a plan opens its device, a
/// failure to open or to read leaves none open, and nothing else changes it.
pub open spec fn open_device_after(open_device: Option<i32>, config: ConfigView, event: CaptureEvent) -> Option<
    i32,
> {
    match event {
        CaptureEvent::Tick => match config.camera.cam_id() {
            Some(device) => Some(device),
            None => open_device,
        },
        CaptureEvent::DeviceFault(Fault::Open) | CaptureEvent::DeviceFault(Fault::Read) => None,
        _ => open_device,
    }
}

/// The configuration after an event: a fault of the active camera switches
/// to the next camera, once, and nothing else changes the configuration.
pub open spec fn config_after_capture(config: ConfigView, event: CaptureEvent) -> ConfigView {
    match event {
        CaptureEvent::DeviceFault(_) => ConfigView { camera: config.camera.switched(), ..config },
        _ => config,
    }
}

impl FrameHandler {
    /// Makes the task's first state: no device is open.
    pub fn new() -> (handler: FrameHandler)
        ensures
            handler@ is None,
    {
        FrameHandler { active_cam_id: None }
    }

    /// The device that is open, if any.
    pub fn active_cam_id(&self) -> (device: Option<i32>)
        ensures
            device == self@,
    {
        self.active_cam_id
    }

    /// Runs the task for one event.
    ///
    /// A tick reads the configuration once and plans the capture from it;
    /// with no camera selected it waits for the next tick and publishes
    /// nothing. A fault of the active camera switches to the next camera and
    /// waits for the next tick. A captured frame is rendered in the mode of
    /// its plan and published. After publishing the task waits for the next
    /// tick; it stops only when the consumer is gone.
    pub fn run(&mut self, config: &mut FrameHandlerConfig, event: CaptureEvent) -> (action:
        CaptureAction)
        requires
            event matches CaptureEvent::Captured(frame, mode) ==> spec_fits(frame@, mode),
        ensures
            final(self)@ == open_device_after(old(self)@, old(config)@, event),
            final(config)@ == config_after_capture(old(config)@, event),
            action is Stop <==> event is Disconnected,
            match event {
                CaptureEvent::Tick => match plan_of(old(self)@, old(config)@) {
                    Some(plan) => action == CaptureAction::Capture(plan),
                    None => action is AwaitTick,
                },
                CaptureEvent::DeviceFault(_) => action is AwaitTick,
                CaptureEvent::Captured(frame, mode) => action matches CaptureAction::Publish(text)
                    && text_rows(text) == rendered_rows(frame@, mode),
                CaptureEvent::Sent => action is AwaitTick,
                CaptureEvent::Disconnected => action is Stop,
            },
    {
        match event {
            CaptureEvent::Tick => {
                let current_cam_id: i32 = match config.camera.get_cam_id() {
                    Some(id) => *id,
                    None => {
                        return CaptureAction::AwaitTick;
                    },
                };
                let reopen: bool = match self.active_cam_id {
                    Some(active_cam_id) => current_cam_id != active_cam_id,
                    None => true,
                };
                self.active_cam_id = Some(current_cam_id);
                let mode: ImageConvertType = config.image_convert_type;
                let size: (i32, i32) = config.capture_size();
                CaptureAction::Capture(
                    CapturePlan {
                        device: current_cam_id,
                        reopen,
                        width: size.0,
                        height: size.1,
                        preprocess: Preprocess::of_mode(mode),
                        mode,
                    },
                )
            },
            CaptureEvent::DeviceFault(fault) => {
                match fault {
                    Fault::Open | Fault::Read => {
                        self.active_cam_id = None;
                    },
                    Fault::Resize => {},
                }
                config.camera.switch();
                CaptureAction::AwaitTick
            },
            CaptureEvent::Captured(frame, mode) => CaptureAction::Publish(
                convert_frame_into_ascii(frame, mode),
            ),
            CaptureEvent::Sent => CaptureAction::AwaitTick,
            CaptureEvent::Disconnected => CaptureAction::Stop,
        }
    }
}

} // verus!
