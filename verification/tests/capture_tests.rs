use cosmicmsg::capture::{
    FailureReason, Formats, FramePlan, PixelFormat, RawCapture, ShmFormat, Wait, WaitStep,
    constraints_ready, encode_png, finish_frame, frame_ready, pick_format, pixel, png_base64,
    to_rgba,
};
use cosmicmsg::state::{AppData, CaptureResult};
use cosmicmsg::Error;

fn s(x: &str) -> String {
    x.to_string()
}

fn empty_state() -> AppData {
    AppData::new(vec![], vec![], vec![], vec![], vec![], false)
}

fn formats(w: u32, h: u32, fs: Vec<ShmFormat>) -> Formats {
    Formats { buffer_width: w, buffer_height: h, shm_formats: fs }
}

const PNG_SIGNATURE: [u8; 8] = [137, 80, 78, 71, 13, 10, 26, 10];
const IEND: [u8; 12] = [0, 0, 0, 0, 73, 69, 78, 68, 174, 66, 96, 130];

#[test]
fn png_of_one_pixel() {
    let png = encode_png(1, 1, &vec![255, 0, 0, 255]).unwrap();
    assert_eq!(&png[..8], &PNG_SIGNATURE);
    // IHDR: length 13, type, width 1, height 1, depth 8, color type 6 (RGBA).
    assert_eq!(&png[8..16], &[0, 0, 0, 13, 73, 72, 68, 82]);
    assert_eq!(&png[16..24], &[0, 0, 0, 1, 0, 0, 0, 1]);
    assert_eq!(&png[24..26], &[8, 6]);
    assert_eq!(&png[png.len() - 12..], &IEND);
}

#[test]
fn png_refuses_zero_sizes() {
    assert_eq!(encode_png(0, 1, &vec![]).unwrap_err(), Error::Other(s("PNG header: Zero width not allowed")));
    assert_eq!(encode_png(1, 0, &vec![]).unwrap_err(), Error::Other(s("PNG header: Zero height not allowed")));
}

#[test]
fn png_refuses_wrong_buffer_size() {
    assert_eq!(
        encode_png(1, 1, &vec![1, 2, 3]).unwrap_err(),
        Error::Other(s("PNG encode: wrong data size, expected 4 got 3"))
    );
    assert_eq!(
        encode_png(2, 3, &vec![0; 25]).unwrap_err(),
        Error::Other(s("PNG encode: wrong data size, expected 24 got 25"))
    );
}

#[test]
fn raw_capture_encodes_its_pixels() {
    let raw = RawCapture { width: 2, height: 1, data: vec![1, 2, 3, 255, 4, 5, 6, 255] };
    let png = raw.encode_png().unwrap();
    assert_eq!(png, encode_png(2, 1, &raw.data).unwrap());
    assert_eq!(&png[16..24], &[0, 0, 0, 2, 0, 0, 0, 1]);
}

#[test]
fn base64_standard_vectors() {
    assert_eq!(png_base64(&b"Man".to_vec()), "TWFu");
    assert_eq!(png_base64(&b"Ma".to_vec()), "TWE=");
    assert_eq!(png_base64(&b"M".to_vec()), "TQ==");
    assert_eq!(png_base64(&vec![]), "");
    assert_eq!(png_base64(&vec![0xfb, 0xff]), "+/8=");
    assert_eq!(png_base64(&b"hello world".to_vec()), "aGVsbG8gd29ybGQ=");
    assert_eq!(png_base64(&PNG_SIGNATURE.to_vec()), "iVBORw0KGgo=");
}

#[test]
fn rgba_conversion_swaps_for_argb() {
    let p = vec![1, 2, 3, 4, 5, 6, 7, 8, 9];
    assert_eq!(to_rgba(p.clone(), PixelFormat::Argb8888), vec![3, 2, 1, 255, 7, 6, 5, 255, 9]);
    assert_eq!(to_rgba(p.clone(), PixelFormat::Xrgb8888), vec![3, 2, 1, 255, 7, 6, 5, 255, 9]);
    assert_eq!(to_rgba(p.clone(), PixelFormat::Abgr8888), vec![1, 2, 3, 255, 5, 6, 7, 255, 9]);
    assert_eq!(to_rgba(p, PixelFormat::Xbgr8888), vec![1, 2, 3, 255, 5, 6, 7, 255, 9]);
}

#[test]
fn rgba_conversion_twice() {
    let p = vec![10, 20, 30, 0, 40, 50, 60, 1];
    let twice = to_rgba(to_rgba(p.clone(), PixelFormat::Argb8888), PixelFormat::Argb8888);
    assert_eq!(twice, to_rgba(p.clone(), PixelFormat::Abgr8888));
    let once = to_rgba(p.clone(), PixelFormat::Xbgr8888);
    assert_eq!(to_rgba(once.clone(), PixelFormat::Xbgr8888), once);
}

#[test]
fn pixel_reads_four_bytes() {
    let src: Vec<u8> = (0..16).collect();
    assert_eq!(pixel(&src, 2, 1, 1), [12, 13, 14, 15]);
    assert_eq!(pixel(&src, 2, 0, 0), [0, 1, 2, 3]);
    assert_eq!(pixel(&src, 2, 1, 0), [4, 5, 6, 7]);
}

#[test]
fn format_preference() {
    let f = formats(1, 1, vec![
        ShmFormat::Other(1, s("C8")),
        ShmFormat::Known(PixelFormat::Xrgb8888),
        ShmFormat::Known(PixelFormat::Argb8888),
    ]);
    assert_eq!(pick_format(&f).unwrap(), PixelFormat::Argb8888);
    let f = formats(1, 1, vec![ShmFormat::Known(PixelFormat::Xrgb8888), ShmFormat::Known(PixelFormat::Abgr8888)]);
    assert_eq!(pick_format(&f).unwrap(), PixelFormat::Abgr8888);
}

#[test]
fn no_readable_format() {
    let f = formats(1, 1, vec![ShmFormat::Other(5, s("C8")), ShmFormat::Other(6, s("Rgb332"))]);
    assert_eq!(
        pick_format(&f).unwrap_err(),
        Error::Other(s("no supported shm format; compositor offers: [C8, Rgb332]"))
    );
    assert_eq!(
        pick_format(&formats(1, 1, vec![])).unwrap_err(),
        Error::Other(s("no supported shm format; compositor offers: []"))
    );
}

#[test]
fn constraints_wait() {
    let mut st = empty_state();
    st.begin_capture();
    assert_eq!(constraints_ready(&st), Ok(false));
    st.stopped();
    assert_eq!(constraints_ready(&st), Err(Error::Other(s("capture session stopped before constraints"))));
    st.init_done(formats(2, 3, vec![ShmFormat::Known(PixelFormat::Xbgr8888)]));
    assert_eq!(constraints_ready(&st), Ok(true));
}

#[test]
fn frame_plan_from_constraints() {
    let mut st = empty_state();
    st.init_done(formats(2, 3, vec![ShmFormat::Known(PixelFormat::Xbgr8888)]));
    let plan = st.take_constraints().unwrap();
    assert_eq!(plan, FramePlan { width: 2, height: 3, stride: 8, buf_size: 24, format: PixelFormat::Xbgr8888 });
    assert!(st.capture_formats.is_none());
    assert_eq!(
        st.take_constraints().unwrap_err(),
        Error::Other(s("compositor never advertised buffer constraints"))
    );
    st.init_done(formats(0, 3, vec![ShmFormat::Known(PixelFormat::Xbgr8888)]));
    assert_eq!(st.take_constraints().unwrap_err(), Error::Other(s("compositor reported zero-size buffer")));
    st.init_done(formats(4, 4, vec![ShmFormat::Other(9, s("Nv12"))]));
    assert_eq!(
        st.take_constraints().unwrap_err(),
        Error::Other(s("no supported shm format; compositor offers: [Nv12]"))
    );
}

#[test]
fn frame_wait_outcomes() {
    let mut st = empty_state();
    assert_eq!(frame_ready(&st), Ok(false));
    st.failed(FailureReason::BufferConstraints);
    assert_eq!(frame_ready(&st), Err(Error::Other(s("capture failed: buffer constraints mismatch"))));
    st.failed(FailureReason::Stopped);
    assert_eq!(st.capture_result, Some(CaptureResult::Failed(s("session stopped"))));
    st.failed(FailureReason::Unknown);
    assert_eq!(frame_ready(&st), Err(Error::Other(s("capture failed: unknown failure"))));
    st.stopped();
    assert_eq!(frame_ready(&st), Err(Error::Other(s("capture session stopped during frame"))));
    st.ready();
    assert_eq!(frame_ready(&st), Ok(true));
}

#[test]
fn reading_the_frame() {
    let mut st = empty_state();
    let plan = FramePlan { width: 2, height: 1, stride: 8, buf_size: 8, format: PixelFormat::Argb8888 };
    let canvas: Vec<u8> = vec![1, 2, 3, 0, 4, 5, 6, 0, 99, 99];
    assert_eq!(
        finish_frame(&st, &canvas, &plan).unwrap_err(),
        Error::Other(s("capture timed out waiting for frame"))
    );
    st.ready();
    let raw = finish_frame(&st, &canvas, &plan).unwrap();
    assert_eq!(raw, RawCapture { width: 2, height: 1, data: vec![3, 2, 1, 255, 6, 5, 4, 255] });
}

#[test]
fn bounded_wait() {
    let mut w = Wait::new(2);
    assert!(w.may_dispatch());
    assert_eq!(w.after_dispatch(Ok(false)), WaitStep::Dispatch);
    assert_eq!(w.after_dispatch(Ok(false)), WaitStep::Finish(Ok(())));
    assert!(!w.may_dispatch());
    let mut w = Wait::new(5);
    assert_eq!(w.after_dispatch(Ok(true)), WaitStep::Finish(Ok(())));
    let mut w = Wait::new(5);
    assert_eq!(
        w.after_dispatch(Err(Error::Other(s("x")))),
        WaitStep::Finish(Err(Error::Other(s("x"))))
    );
    assert!(!Wait::new(0).may_dispatch());
}
