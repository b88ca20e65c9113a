use espcam::image::{check_inference, CameraFrame, DlError, EspDlImage, Frame, JpegImage, OwnedEspDlJpeg};
use espcam::trace::Trace;

#[test]
fn frame_reports_its_contents() {
    let f = Frame::new(640, 480, vec![0xff, 0xd8, 0xff, 0xd9]);
    assert_eq!(f.width(), 640);
    assert_eq!(f.height(), 480);
    assert_eq!(f.data(), &[0xff, 0xd8, 0xff, 0xd9]);
    assert_eq!(f.length(), 4);
}

#[test]
fn decoded_image_accessors() {
    let img = EspDlImage::from_decoded(0, vec![1, 2, 3, 4, 5, 6], 2, 1, 3, 6).unwrap();
    assert_eq!(img.width(), 2);
    assert_eq!(img.height(), 1);
    assert_eq!(img.stride(), 6);
    assert_eq!(img.pix_type(), 3);
    assert_eq!(img.as_bytes(), &[1, 2, 3, 4, 5, 6]);
    assert!(matches!(
        EspDlImage::from_decoded(-1, Vec::new(), 0, 0, 0, 0),
        Err(DlError::DecodeFailed(-1))
    ));
}

#[test]
fn inference_status() {
    assert_eq!(check_inference(0), Ok(()));
    assert_eq!(check_inference(0x103), Err(DlError::InferenceFailed(0x103)));
}

#[test]
fn encoded_jpeg_checks() {
    let jpeg = OwnedEspDlJpeg::from_encoded(0, vec![9, 8, 7], 320, 240).unwrap();
    assert_eq!(jpeg.width(), 320);
    assert_eq!(jpeg.height(), 240);
    assert_eq!(jpeg.data(), &[9, 8, 7]);
    assert_eq!(jpeg.length(), 3);
    assert!(matches!(OwnedEspDlJpeg::from_encoded(0, Vec::new(), 320, 240), Err(DlError::EmptyJpeg)));
    assert!(matches!(OwnedEspDlJpeg::from_encoded(5, vec![1], 320, 240), Err(DlError::EncodeFailed(5))));
}

#[test]
fn camera_frame_dispatches() {
    let raw = CameraFrame::Raw(Frame::new(10, 20, vec![1, 2]));
    assert_eq!((raw.width(), raw.height(), raw.data(), raw.length()), (10, 20, &[1u8, 2][..], 2));
    let inferred = CameraFrame::Inferred(OwnedEspDlJpeg::from_encoded(0, vec![3, 4, 5], 30, 40).unwrap());
    assert_eq!(
        (inferred.width(), inferred.height(), inferred.data(), inferred.length()),
        (30, 40, &[3u8, 4, 5][..], 3)
    );
}

#[test]
fn attach_trace_keeps_frame_and_trace() {
    let mut trace = Trace::start();
    trace.dropped_frames = 2;
    trace.checkpoint("capture");
    let tagged = CameraFrame::Raw(Frame::new(7, 8, vec![4, 5, 6])).attach_trace(trace);
    assert_eq!(tagged.width(), 7);
    assert_eq!(tagged.height(), 8);
    assert_eq!(tagged.data(), &[4, 5, 6]);
    assert_eq!(tagged.length(), 3);
    assert_eq!(tagged.trace.dropped_frames, 2);
    assert_eq!(tagged.trace.steps().len(), 1);
    assert_eq!(tagged.trace.steps()[0].0, "capture");
}
