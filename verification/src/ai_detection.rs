//! The camera watch for someone looking over the shoulder: the commands the
//! worker takes, the state it keeps and what it decides; the camera and the
//! face-detection model are driven by the caller.
use vstd::prelude::*;

verus! {

/// A command to the detection worker.
#[derive(Debug, Clone, Copy, PartialEq, Eq, Structural)]
pub enum AIDetectionCommand {
    Start,
    Stop,
}

/// What the worker has to do after a command.
#[derive(Debug, Clone, Copy, PartialEq, Eq, Structural)]
pub enum DetectorAction {
    /// Nothing.
    Nothing,
    /// Open the camera stream and report with `DetectorState::camera_opened`.
    OpenCamera,
    /// Stop the camera stream if one is open, then report that nobody is
    /// detected.
    StopCameraAndClear,
}

/// The state of the detection worker.
#[derive(Debug, Clone, Copy, PartialEq, Eq, Structural)]
pub struct DetectorState {
    pub running: bool,
    pub camera_open: bool,
    pub model_loaded: bool,
}

/// Score (in ten-thousandths) above which a detection counts as a face.
pub const FACE_THRESHOLD: u32 = 7000;

/// The state and the action after command `cmd`: starting sets the worker
/// running and opens the camera when it is not open; stopping sets it idle,
/// closes the camera and clears the detection.
pub open spec fn commanded(s: DetectorState, cmd: AIDetectionCommand) -> (DetectorState, DetectorAction) {
    match cmd {
        AIDetectionCommand::Start => (
            DetectorState { running: true, ..s },
            if s.camera_open {
                DetectorAction::Nothing
            } else {
                DetectorAction::OpenCamera
            },
        ),
        AIDetectionCommand::Stop => (
            DetectorState { running: false, camera_open: false, ..s },
            DetectorAction::StopCameraAndClear,
        ),
    }
}

/// The state after the caller reports whether the camera opened.
pub open spec fn camera_reported(s: DetectorState, ok: bool) -> DetectorState {
    DetectorState { camera_open: ok, ..s }
}

/// A frame is analysed in this round: the worker runs, the camera is open
/// and the model is loaded.
pub open spec fn analyzing(s: DetectorState) -> bool {
    s.running && s.camera_open && s.model_loaded
}

/// What happens to the worker between two rounds: a command, or the report
/// of opening the camera.
pub enum WorkerEvent {
    Command(AIDetectionCommand),
    CameraOpened(bool),
}

/// The state after the events `evs`, in turn.
pub open spec fn worker_after(s: DetectorState, evs: Seq<WorkerEvent>) -> DetectorState
    decreases evs.len(),
{
    if evs.len() == 0 {
        s
    } else {
        let t = worker_after(s, evs.drop_last());
        match evs.last() {
            WorkerEvent::Command(c) => commanded(t, c).0,
            WorkerEvent::CameraOpened(ok) => camera_reported(t, ok),
        }
    }
}

impl DetectorState {
    /// A stopped worker with no camera, with or without a model.
    pub fn new(model_loaded: bool) -> (s: Self)
        ensures
            !s.running,
            !s.camera_open,
            s.model_loaded == model_loaded,
    {
        DetectorState { running: false, camera_open: false, model_loaded }
    }

    /// Takes a command: starting opens the camera when it is not open and
    /// sets the worker running; stopping sets it idle, closes the camera and
    /// clears the detection.
    pub fn command(&mut self, cmd: AIDetectionCommand) -> (action: DetectorAction)
        ensures
            (*final(self), action) == commanded(*old(self), cmd),
    {
        match cmd {
            AIDetectionCommand::Start => {
                self.running = true;
                if self.camera_open {
                    DetectorAction::Nothing
                } else {
                    DetectorAction::OpenCamera
                }
            },
            AIDetectionCommand::Stop => {
                self.running = false;
                self.camera_open = false;
                DetectorAction::StopCameraAndClear
            },
        }
    }

    /// Records whether opening the camera stream succeeded.
    pub fn camera_opened(&mut self, ok: bool)
        ensures
            *final(self) == camera_reported(*old(self), ok),
    {
        self.camera_open = ok;
    }

    /// Whether a frame is analysed in this round: the worker runs, the
    /// camera is open and the model is loaded.
    pub fn should_analyze(&self) -> (b: bool)
        ensures
            b == analyzing(*self),
    {
        self.running && self.camera_open && self.model_loaded
    }

    /// Milliseconds to wait before the next round: 500 after an analysis,
    /// 100 otherwise.
    pub fn poll_interval_ms(&self) -> (ms: u32)
        ensures
            ms == if self.running && self.camera_open && self.model_loaded {
                500u32
            } else {
                100u32
            },
    {
        if self.should_analyze() {
            500
        } else {
            100
        }
    }
}

/// The number of detections among the first `n` whose face score (the
/// second of each pair of scores) is above the threshold.
pub open spec fn faces_among(scores: Seq<u32>, n: int) -> nat
    decreases n,
{
    if n <= 0 {
        0
    } else {
        faces_among(scores, n - 1) + if scores[2 * (n - 1) + 1] > FACE_THRESHOLD {
            1nat
        } else {
            0nat
        }
    }
}

/// Counts the faces in the scores the model gives: pairs of (background,
/// face) scores in ten-thousandths, one pair per detection.
pub fn count_faces(scores: &Vec<u32>) -> (n: usize)
    ensures
        n == faces_among(scores@, scores@.len() as int / 2),
{
    let pairs = scores.len() / 2;
    let mut count: usize = 0;
    let mut i: usize = 0;
    while i < pairs
        invariant
            pairs == scores@.len() / 2,
            scores@.len() <= usize::MAX,
            i <= pairs,
            count == faces_among(scores@, i as int),
            count <= i,
        decreases pairs - i,
    {
        if scores[2 * i + 1] > FACE_THRESHOLD {
            count = count + 1;
        }
        i = i + 1;
    }
    count
}

/// Width of the frames the face-detection model takes.
pub const MODEL_WIDTH: u32 = 320;

/// Height of the frames the face-detection model takes.
pub const MODEL_HEIGHT: u32 = 240;

/// What the `image` crate's `imageops::resize` with the triangle filter
/// gives for an RGB image (`width` by `height`) resized to `new_width` by
/// `new_height`.
pub uninterp spec fn resized_of(rgb: Seq<u8>, width: u32, height: u32, new_width: u32, new_height: u32) -> Seq<u8>;

/// The RGB image resized to `new_width` by `new_height`.
///
/// Trusted: calls the `image` crate's `imageops::resize` with
/// `FilterType::Triangle`; its pixels are named `resized_of`, and the
/// result holds three bytes for each pixel of the new size.
#[verifier::external_body]
fn resize_rgb(rgb: &Vec<u8>, width: u32, height: u32, new_width: u32, new_height: u32) -> (r: Vec<u8>)
    requires
        rgb@.len() == width * height * 3,
        new_width * new_height * 3 <= usize::MAX,
    ensures
        r@ == resized_of(rgb@, width, height, new_width, new_height),
        r@.len() == new_width * new_height * 3,
{
    let img = image::RgbImage::from_raw(width, height, rgb.clone()).unwrap_or_default();
    image::imageops::resize(&img, new_width, new_height, image::imageops::FilterType::Triangle).into_raw()
}

/// A camera frame (RGB, `width` by `height`) at the size the model takes.
pub fn model_frame(rgb: &Vec<u8>, width: u32, height: u32) -> (r: Vec<u8>)
    requires
        rgb@.len() == width * height * 3,
    ensures
        r@ == resized_of(rgb@, width, height, MODEL_WIDTH, MODEL_HEIGHT),
        r@.len() == MODEL_WIDTH * MODEL_HEIGHT * 3,
{
    resize_rgb(rgb, width, height, MODEL_WIDTH, MODEL_HEIGHT)
}

/// Someone is looking over the shoulder when more than one face is seen.
pub fn peeper_present(faces: usize) -> (b: bool)
    ensures
        b == (faces > 1),
{
    faces > 1
}

} // verus!
