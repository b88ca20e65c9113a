//! JPEG frames as the camera and the person detector hand them out, the
//! decoded RGB image the detector works on, and frames tagged with a trace.

use vstd::prelude::*;

use crate::trace::Trace;

verus! {

/// Status the ESP-DL routines return on success.
pub const ESP_OK: i32 = 0;

/// A JPEG-encoded image of known size.
pub trait JpegImage {
    /// Width in pixels.
    spec fn jpeg_width(&self) -> usize;

    /// Height in pixels.
    spec fn jpeg_height(&self) -> usize;

    /// The JPEG bytes.
    spec fn jpeg_data(&self) -> Seq<u8>;

    fn width(&self) -> (w: usize)
        ensures
            w == self.jpeg_width(),
    ;

    fn height(&self) -> (h: usize)
        ensures
            h == self.jpeg_height(),
    ;

    fn data(&self) -> (d: &[u8])
        ensures
            d@ == self.jpeg_data(),
    ;

    /// Number of JPEG bytes.
    fn length(&self) -> (n: usize)
        ensures
            n == self.jpeg_data().len(),
    {
        self.data().len()
    }
}

/// A JPEG frame captured by the camera.
pub struct Frame {
    width: usize,
    height: usize,
    data: Vec<u8>,
}

impl Frame {
    /// A frame of `width` x `height` pixels whose JPEG bytes are `data`.
    pub fn new(width: usize, height: usize, data: Vec<u8>) -> (f: Self)
        ensures
            f.jpeg_width() == width,
            f.jpeg_height() == height,
            f.jpeg_data() == data@,
    {
        Frame { width, height, data }
    }
}

impl JpegImage for Frame {
    closed spec fn jpeg_width(&self) -> usize {
        self.width
    }

    closed spec fn jpeg_height(&self) -> usize {
        self.height
    }

    closed spec fn jpeg_data(&self) -> Seq<u8> {
        self.data@
    }

    fn width(&self) -> (w: usize) {
        self.width
    }

    fn height(&self) -> (h: usize) {
        self.height
    }

    fn data(&self) -> (d: &[u8]) {
        self.data.as_slice()
    }
}

/// Why an ESP-DL routine's result was refused.
#[derive(Debug, Clone, Copy, PartialEq, Eq, Structural)]
pub enum DlError {
    /// Decoding the JPEG into RGB888 failed with this status.
    DecodeFailed(i32),
    /// Pedestrian detection failed with this status.
    InferenceFailed(i32),
    /// Encoding the anonymized image as JPEG failed with this status.
    EncodeFailed(i32),
    /// The encoder reported success but produced no bytes.
    EmptyJpeg,
}

/// An RGB888 image decoded by ESP-DL.
pub struct EspDlImage {
    data: Vec<u8>,
    width: u16,
    height: u16,
    pix_type: u32,
    stride: usize,
}

impl EspDlImage {
    pub closed spec fn spec_width(&self) -> u16 {
        self.width
    }

    pub closed spec fn spec_height(&self) -> u16 {
        self.height
    }

    pub closed spec fn spec_stride(&self) -> usize {
        self.stride
    }

    pub closed spec fn spec_pix_type(&self) -> u32 {
        self.pix_type
    }

    pub closed spec fn spec_bytes(&self) -> Seq<u8> {
        self.data@
    }

    /// The image the decoder described, if its `status` reports success.
    pub fn from_decoded(status: i32, data: Vec<u8>, width: u16, height: u16, pix_type: u32, stride: usize) -> (r:
        Result<Self, DlError>)
        ensures
            status != ESP_OK ==> r == Err::<Self, DlError>(DlError::DecodeFailed(status)),
            status == ESP_OK ==> r is Ok && r->Ok_0.spec_bytes() == data@ && r->Ok_0.spec_width() == width
                && r->Ok_0.spec_height() == height && r->Ok_0.spec_pix_type() == pix_type
                && r->Ok_0.spec_stride() == stride,
    {
        if status != ESP_OK {
            return Err(DlError::DecodeFailed(status));
        }
        Ok(EspDlImage { data, width, height, pix_type, stride })
    }

    /// Get the width of the image in pixels.
    pub fn width(&self) -> (w: u16)
        ensures
            w == self.spec_width(),
    {
        self.width
    }

    /// Get the height of the image in pixels.
    pub fn height(&self) -> (h: u16)
        ensures
            h == self.spec_height(),
    {
        self.height
    }

    /// Get the stride (number of bytes in a row of pixel data) of the image.
    pub fn stride(&self) -> (s: usize)
        ensures
            s == self.spec_stride(),
    {
        self.stride
    }

    /// The pixel format code ESP-DL reported.
    pub fn pix_type(&self) -> (p: u32)
        ensures
            p == self.spec_pix_type(),
    {
        self.pix_type
    }

    /// Get the pixel data of the image as a byte slice.
    pub fn as_bytes(&self) -> (b: &[u8])
        ensures
            b@ == self.spec_bytes(),
    {
        self.data.as_slice()
    }
}

/// Accepts the status of a pedestrian detection run.
pub fn check_inference(status: i32) -> (r: Result<(), DlError>)
    ensures
        status == ESP_OK <==> r is Ok,
        status != ESP_OK ==> r == Err::<(), DlError>(DlError::InferenceFailed(status)),
{
    if status != ESP_OK {
        Err(DlError::InferenceFailed(status))
    } else {
        Ok(())
    }
}

/// A JPEG image produced by re-encoding an anonymized `EspDlImage`.
pub struct OwnedEspDlJpeg {
    data: Vec<u8>,
    width: usize,
    height: usize,
}

impl OwnedEspDlJpeg {
    /// The encoder's output as a JPEG of the size of the image it encoded:
    /// refused if the encoder's `status` reports failure or its output is empty.
    pub fn from_encoded(status: i32, data: Vec<u8>, width: u16, height: u16) -> (r: Result<Self, DlError>)
        ensures
            status != ESP_OK ==> r == Err::<Self, DlError>(DlError::EncodeFailed(status)),
            status == ESP_OK && data@.len() == 0 ==> r == Err::<Self, DlError>(DlError::EmptyJpeg),
            r is Ok <==> status == ESP_OK && data@.len() > 0,
            r is Ok ==> r->Ok_0.jpeg_data() == data@ && r->Ok_0.jpeg_width() == width as usize
                && r->Ok_0.jpeg_height() == height as usize,
    {
        if status != ESP_OK {
            return Err(DlError::EncodeFailed(status));
        }
        if data.len() == 0 {
            return Err(DlError::EmptyJpeg);
        }
        Ok(OwnedEspDlJpeg { data, width: width as usize, height: height as usize })
    }
}

impl JpegImage for OwnedEspDlJpeg {
    closed spec fn jpeg_width(&self) -> usize {
        self.width
    }

    closed spec fn jpeg_height(&self) -> usize {
        self.height
    }

    closed spec fn jpeg_data(&self) -> Seq<u8> {
        self.data@
    }

    fn width(&self) -> (w: usize) {
        self.width
    }

    fn height(&self) -> (h: usize) {
        self.height
    }

    fn data(&self) -> (d: &[u8]) {
        self.data.as_slice()
    }
}

/// A frame ready to stream: straight from the camera, or anonymized by the
/// person detector.
pub enum CameraFrame {
    Raw(Frame),
    Inferred(OwnedEspDlJpeg),
}

impl JpegImage for CameraFrame {
    open spec fn jpeg_width(&self) -> usize {
        match self {
            CameraFrame::Raw(f) => f.jpeg_width(),
            CameraFrame::Inferred(f) => f.jpeg_width(),
        }
    }

    open spec fn jpeg_height(&self) -> usize {
        match self {
            CameraFrame::Raw(f) => f.jpeg_height(),
            CameraFrame::Inferred(f) => f.jpeg_height(),
        }
    }

    open spec fn jpeg_data(&self) -> Seq<u8> {
        match self {
            CameraFrame::Raw(f) => f.jpeg_data(),
            CameraFrame::Inferred(f) => f.jpeg_data(),
        }
    }

    fn width(&self) -> (w: usize) {
        match self {
            CameraFrame::Raw(f) => f.width(),
            CameraFrame::Inferred(f) => f.width(),
        }
    }

    fn height(&self) -> (h: usize) {
        match self {
            CameraFrame::Raw(f) => f.height(),
            CameraFrame::Inferred(f) => f.height(),
        }
    }

    fn data(&self) -> (d: &[u8]) {
        match self {
            CameraFrame::Raw(f) => f.data(),
            CameraFrame::Inferred(f) => f.data(),
        }
    }
}

impl CameraFrame {
    /// Pairs the frame with the trace of how it was produced.
    pub fn attach_trace(self, trace: Trace) -> (t: TrackedImage)
        ensures
            t.image == self,
            t.trace == trace,
    {
        TrackedImage { image: self, trace }
    }
}

/// A frame together with the trace of how it was produced.
pub struct TrackedImage {
    pub image: CameraFrame,
    pub trace: Trace,
}

impl JpegImage for TrackedImage {
    open spec fn jpeg_width(&self) -> usize {
        self.image.jpeg_width()
    }

    open spec fn jpeg_height(&self) -> usize {
        self.image.jpeg_height()
    }

    open spec fn jpeg_data(&self) -> Seq<u8> {
        self.image.jpeg_data()
    }

    fn width(&self) -> (w: usize) {
        self.image.width()
    }

    fn height(&self) -> (h: usize) {
        self.image.height()
    }

    fn data(&self) -> (d: &[u8]) {
        self.image.data()
    }
}

} // verus!
