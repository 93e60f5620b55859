//! Capture support: the buffer constraints the compositor offers, the
//! choice of pixel format, the decisions of the capture session, conversion
//! of captured pixels to RGBA8888 and PNG encoding.

use vstd::prelude::*;
use crate::state::{AppData, CaptureResult};
use crate::text::{push_joined, push_str, seq_join, string_from_chars, to_owned_string};
use crate::types::{Error, ErrorView, other_error, result_view};
use base64::Engine;

verus! {

// ── Pixel formats ───────────────────────────────────────────────────────────

/// The `wl_shm` formats the capture pipeline can read, in preference order.
#[derive(Debug, Clone, Copy, PartialEq, Eq, Structural)]
pub enum PixelFormat {
    Abgr8888,
    Argb8888,
    Xbgr8888,
    Xrgb8888,
}

/// A `wl_shm` pixel format as offered by the compositor: one the pipeline
/// can read, or another one with its code and its `Debug` name.
#[derive(Debug, Clone, PartialEq, Eq)]
pub enum ShmFormat {
    Known(PixelFormat),
    Other(u32, String),
}

/// Buffer constraints advertised for a capture session.
#[derive(Debug, Clone, PartialEq, Eq)]
pub struct Formats {
    pub buffer_width: u32,
    pub buffer_height: u32,
    pub shm_formats: Vec<ShmFormat>,
}

/// The `Debug` name of a format.
pub open spec fn pixel_format_name(p: PixelFormat) -> Seq<char> {
    match p {
        PixelFormat::Abgr8888 => "Abgr8888"@,
        PixelFormat::Argb8888 => "Argb8888"@,
        PixelFormat::Xbgr8888 => "Xbgr8888"@,
        PixelFormat::Xrgb8888 => "Xrgb8888"@,
    }
}

/// The `Debug` name of an offered format.
pub open spec fn shm_format_name(f: ShmFormat) -> Seq<char> {
    match f {
        ShmFormat::Known(p) => pixel_format_name(p),
        ShmFormat::Other(_, name) => name@,
    }
}

/// The compositor offers `p`.
pub open spec fn offers(fs: Seq<ShmFormat>, p: PixelFormat) -> bool {
    exists|i: int| 0 <= i < fs.len() && (#[trigger] fs[i] matches ShmFormat::Known(q) && q == p)
}

/// The first format in preference order that the compositor offers, or
/// the error that lists what it offers.
pub open spec fn spec_pick_format(fs: Seq<ShmFormat>) -> Result<PixelFormat, ErrorView> {
    if offers(fs, PixelFormat::Abgr8888) {
        Ok(PixelFormat::Abgr8888)
    } else if offers(fs, PixelFormat::Argb8888) {
        Ok(PixelFormat::Argb8888)
    } else if offers(fs, PixelFormat::Xbgr8888) {
        Ok(PixelFormat::Xbgr8888)
    } else if offers(fs, PixelFormat::Xrgb8888) {
        Ok(PixelFormat::Xrgb8888)
    } else {
        Err(
            ErrorView::Other(
                "no supported shm format; compositor offers: ["@ + seq_join(
                    fs.map_values(|f: ShmFormat| shm_format_name(f)),
                    ", "@,
                ) + "]"@,
            ),
        )
    }
}

fn offers_exec(fs: &Vec<ShmFormat>, p: PixelFormat) -> (r: bool)
    ensures
        r == offers(fs@, p),
{
    let mut i: usize = 0;
    while i < fs.len()
        invariant
            i <= fs.len(),
            forall|k: int| 0 <= k < i ==> !(#[trigger] fs@[k] matches ShmFormat::Known(q) && q == p),
        decreases fs.len() - i,
    {
        match &fs[i] {
            ShmFormat::Known(q) => {
                if *q == p {
                    return true;
                }
            },
            ShmFormat::Other(_, _) => {},
        }
        i = i + 1;
    }
    false
}

fn format_name(f: &ShmFormat) -> (r: String)
    ensures
        r@ == shm_format_name(*f),
{
    match f {
        ShmFormat::Known(PixelFormat::Abgr8888) => to_owned_string("Abgr8888"),
        ShmFormat::Known(PixelFormat::Argb8888) => to_owned_string("Argb8888"),
        ShmFormat::Known(PixelFormat::Xbgr8888) => to_owned_string("Xbgr8888"),
        ShmFormat::Known(PixelFormat::Xrgb8888) => to_owned_string("Xrgb8888"),
        ShmFormat::Other(_, name) => name.clone(),
    }
}

/// Choose the pixel format of the capture buffer: the first of Abgr8888,
/// Argb8888, Xbgr8888 and Xrgb8888 that the compositor offers.
pub fn pick_format(formats: &Formats) -> (r: Result<PixelFormat, Error>)
    ensures
        result_view(r) == spec_pick_format(formats.shm_formats@),
{
    let fs = &formats.shm_formats;
    if offers_exec(fs, PixelFormat::Abgr8888) {
        return Ok(PixelFormat::Abgr8888);
    }
    if offers_exec(fs, PixelFormat::Argb8888) {
        return Ok(PixelFormat::Argb8888);
    }
    if offers_exec(fs, PixelFormat::Xbgr8888) {
        return Ok(PixelFormat::Xbgr8888);
    }
    if offers_exec(fs, PixelFormat::Xrgb8888) {
        return Ok(PixelFormat::Xrgb8888);
    }
    let ghost names = fs@.map_values(|f: ShmFormat| shm_format_name(f));
    let mut parts: Vec<String> = Vec::new();
    let mut i: usize = 0;
    while i < fs.len()
        invariant
            i <= fs.len(),
            names == fs@.map_values(|f: ShmFormat| shm_format_name(f)),
            parts.deep_view() =~= names.take(i as int),
        decreases fs.len() - i,
    {
        let ghost before = parts.deep_view();
        let n = format_name(&fs[i]);
        let ghost nv = n@;
        parts.push(n);
        assert(parts.deep_view() =~= before.push(nv));
        i = i + 1;
    }
    assert(names.take(fs.len() as int) =~= names);
    let mut m: Vec<char> = Vec::new();
    push_str(&mut m, "no supported shm format; compositor offers: [");
    push_joined(&mut m, &parts, ", ");
    push_str(&mut m, "]");
    Err(Error::Other(string_from_chars(&m)))
}

// ── Conversion to RGBA8888 ──────────────────────────────────────────────────

/// The format stores its pixels as `[B, G, R, A/X]` in memory, so red and
/// blue trade places on the way to RGBA.
pub open spec fn needs_rb_swap(fmt: PixelFormat) -> bool {
    fmt == PixelFormat::Argb8888 || fmt == PixelFormat::Xrgb8888
}

/// Byte `i` of the RGBA conversion of `p`: in every whole 4-byte pixel,
/// red and blue trade places when the format needs it and alpha becomes
/// 255; bytes after the last whole pixel are kept.
pub open spec fn rgba_byte(p: Seq<u8>, fmt: PixelFormat, i: int) -> u8 {
    let whole = p.len() - p.len() % 4;
    let k = i % 4;
    if i >= whole {
        p[i]
    } else if k == 3 {
        255
    } else if k == 0 && needs_rb_swap(fmt) {
        p[i + 2]
    } else if k == 2 && needs_rb_swap(fmt) {
        p[i - 2]
    } else {
        p[i]
    }
}

/// The RGBA conversion of a captured buffer.
pub open spec fn spec_to_rgba(p: Seq<u8>, fmt: PixelFormat) -> Seq<u8> {
    Seq::new(p.len(), |i: int| rgba_byte(p, fmt, i))
}

/// Convert captured pixels of format `fmt` to RGBA8888 with opaque alpha.
pub fn to_rgba(pixels: Vec<u8>, fmt: PixelFormat) -> (r: Vec<u8>)
    ensures
        r@ == spec_to_rgba(pixels@, fmt),
{
    let ghost p = pixels@;
    let needs_swap = fmt == PixelFormat::Argb8888 || fmt == PixelFormat::Xrgb8888;
    let mut out = pixels;
    let n: usize = out.len();
    let whole: usize = n - n % 4;
    let mut c: usize = 0;
    while c < whole
        invariant
            n == p.len(),
            whole == n - n % 4,
            whole % 4 == 0,
            c % 4 == 0,
            c <= whole,
            out@.len() == n,
            needs_swap == needs_rb_swap(fmt),
            forall|i: int| 0 <= i < c ==> out@[i] == rgba_byte(p, fmt, i),
            forall|i: int| c <= i < n ==> out@[i] == p[i],
        decreases whole - c,
    {
        if needs_swap {
            let b0: u8 = out[c];
            let b2: u8 = out[c + 2];
            out.set(c, b2);
            out.set(c + 2, b0);
        }
        out.set(c + 3, 255);
        proof {
            assert forall|i: int| c <= i < c + 4 implies out@[i] == rgba_byte(p, fmt, i) by {
                assert(i % 4 == i - c);
            }
        }
        c = c + 4;
    }
    assert(out@ =~= spec_to_rgba(p, fmt));
    out
}

/// The four bytes of the pixel at `(x, y)` of an RGBA image `w` pixels wide.
pub fn pixel(src: &Vec<u8>, w: u32, x: u32, y: u32) -> (r: [u8; 4])
    requires
        ((y as int) * (w as int) + (x as int)) * 4 <= u32::MAX,
        ((y as int) * (w as int) + (x as int)) * 4 + 4 <= src@.len(),
    ensures
        r@ == src@.subrange(
            ((y as int) * (w as int) + (x as int)) * 4,
            ((y as int) * (w as int) + (x as int)) * 4 + 4,
        ),
{
    assert((y as int) * (w as int) <= u32::MAX) by (nonlinear_arith)
        requires
            ((y as int) * (w as int) + (x as int)) * 4 <= u32::MAX,
            x >= 0,
    ;
    let off: usize = ((y * w + x) * 4) as usize;
    let r = [src[off], src[off + 1], src[off + 2], src[off + 3]];
    assert(r@ =~= src@.subrange(off as int, off + 4));
    r
}

} // verus!

verus! {

// ── PNG and base64 ──────────────────────────────────────────────────────────

/// Names the bytes that the `png` crate writes for an 8-bit RGBA image of
/// the given size and pixel rows.
pub uninterp spec fn png_rgba8(width: u32, height: u32, pixels: Seq<u8>) -> Seq<u8>;

/// Why the `png` encoder refused an image: the stage that failed and the
/// encoder error's message.
pub enum PngFailure {
    Header(String),
    Data(String),
}

/// The decimal rendering used in the encoder's size message.
pub open spec fn png_size_message(expected: nat, actual: nat) -> Seq<char> {
    "wrong data size, expected "@ + crate::text::decimal(expected) + " got "@
        + crate::text::decimal(actual)
}

/// What the encoder gives for an image: a zero width or height is refused
/// by the header step, a buffer whose length is not `width * 4 * height`
/// by the data step, each with the encoder's message; otherwise it succeeds.
pub open spec fn png_outcome(width: u32, height: u32, pixels: Seq<u8>, r: Result<Vec<u8>, PngFailure>) -> bool {
    if width == 0 {
        r matches Err(PngFailure::Header(m)) && m@ == "Zero width not allowed"@
    } else if height == 0 {
        r matches Err(PngFailure::Header(m)) && m@ == "Zero height not allowed"@
    } else if pixels.len() != (width as int) * 4 * (height as int) {
        r matches Err(PngFailure::Data(m)) && m@ == png_size_message(
            ((width as int) * 4 * (height as int)) as nat,
            pixels.len(),
        )
    } else {
        r is Ok
    }
}

/// Encodes an image in memory with `png::Encoder` (color type RGBA, bit
/// depth 8): `write_header`, then `write_image_data`, then the writer is
/// dropped, which writes the end chunk.
///
/// The contract states what the `png` source shows for a writer into a
/// `Vec<u8>`, which cannot fail: a zero width or height is refused by the
/// header with the encoder's message, a buffer whose length is not
/// `width * 4 * height` is refused by the data step with the encoder's
/// message, and otherwise the bytes are the named PNG encoding.
#[verifier::external_body]
fn png_encode_rgba8(width: u32, height: u32, pixels: &Vec<u8>) -> (r: Result<Vec<u8>, PngFailure>)
    requires
        (width as int) * 4 * (height as int) <= usize::MAX,
    ensures
        png_outcome(width, height, pixels@, r),
        r matches Ok(bytes) ==> bytes@ == png_rgba8(width, height, pixels@),
{
    let mut out: Vec<u8> = Vec::new();
    {
        let mut encoder = png::Encoder::new(&mut out, width, height);
        encoder.set_color(png::ColorType::Rgba);
        encoder.set_depth(png::BitDepth::Eight);
        let mut writer = encoder.write_header().map_err(|e| PngFailure::Header(e.to_string()))?;
        writer.write_image_data(pixels).map_err(|e| PngFailure::Data(e.to_string()))?;
    }
    Ok(out)
}

/// The base64 digit of a 6-bit value in the standard alphabet.
pub open spec fn b64_digit(n: int) -> char {
    if n < 26 {
        (65 + n) as char
    } else if n < 52 {
        (97 + n - 26) as char
    } else if n < 62 {
        (48 + n - 52) as char
    } else if n == 62 {
        '+'
    } else {
        '/'
    }
}

/// Standard base64 (RFC 4648, with `=` padding) of a byte sequence: every
/// three bytes become four digits, and a final one or two bytes become two
/// or three digits followed by padding.
pub open spec fn spec_base64(b: Seq<u8>) -> Seq<char>
    decreases b.len(),
{
    if b.len() == 0 {
        Seq::empty()
    } else if b.len() == 1 {
        seq![b64_digit(b[0] as int / 4), b64_digit((b[0] as int % 4) * 16), '=', '=']
    } else if b.len() == 2 {
        seq![
            b64_digit(b[0] as int / 4),
            b64_digit((b[0] as int % 4) * 16 + b[1] as int / 16),
            b64_digit((b[1] as int % 16) * 4),
            '=',
        ]
    } else {
        seq![
            b64_digit(b[0] as int / 4),
            b64_digit((b[0] as int % 4) * 16 + b[1] as int / 16),
            b64_digit((b[1] as int % 16) * 4 + b[2] as int / 64),
            b64_digit(b[2] as int % 64),
        ] + spec_base64(b.skip(3))
    }
}

/// Calls `Engine::encode` of `base64::prelude::BASE64_STANDARD`: the
/// standard alphabet with padding. The contract claims that the result is
/// that encoding, as the crate documents it; inputs whose encoded length
/// does not fit in `usize` (where the crate panics) are excluded.
#[verifier::external_body]
fn base64_standard(bytes: &Vec<u8>) -> (r: String)
    requires
        4 * ((bytes@.len() + 2) / 3) <= usize::MAX,
    ensures
        r@ == spec_base64(bytes@),
{
    base64::prelude::BASE64_STANDARD.encode(bytes)
}

/// Raw RGBA8888 pixels from a capture, before any PNG encoding.
///
/// Each pixel is 4 bytes in `[R, G, B, A]` order. Alpha is always 255.
/// Total buffer size is `width * height * 4` bytes.
#[derive(Debug, Clone, PartialEq, Eq)]
pub struct RawCapture {
    pub width: u32,
    pub height: u32,
    /// Raw RGBA8888 pixel data, row-major, top-to-bottom.
    pub data: Vec<u8>,
}

/// What PNG encoding of an image gives: the encoder's bytes, or its
/// refusal prefixed by the stage that failed.
pub open spec fn spec_encode_png(width: u32, height: u32, pixels: Seq<u8>) -> Result<
    Seq<u8>,
    ErrorView,
> {
    if width == 0 {
        Err(ErrorView::Other("PNG header: "@ + "Zero width not allowed"@))
    } else if height == 0 {
        Err(ErrorView::Other("PNG header: "@ + "Zero height not allowed"@))
    } else if pixels.len() != (width as int) * 4 * (height as int) {
        Err(
            ErrorView::Other(
                "PNG encode: "@ + png_size_message(
                    ((width as int) * 4 * (height as int)) as nat,
                    pixels.len(),
                ),
            ),
        )
    } else {
        Ok(png_rgba8(width, height, pixels))
    }
}

/// Encode an RGBA8888 buffer as PNG.
pub fn encode_png(width: u32, height: u32, pixels: &Vec<u8>) -> (r: Result<Vec<u8>, Error>)
    requires
        (width as int) * 4 * (height as int) <= usize::MAX,
    ensures
        match (r, spec_encode_png(width, height, pixels@)) {
            (Ok(b), Ok(s)) => b@ == s,
            (Err(e), Err(s)) => e@ == s,
            _ => false,
        },
{
    match png_encode_rgba8(width, height, pixels) {
        Ok(bytes) => Ok(bytes),
        Err(PngFailure::Header(m)) => {
            let mut v: Vec<char> = Vec::new();
            push_str(&mut v, "PNG header: ");
            push_str(&mut v, m.as_str());
            assert(v@ =~= "PNG header: "@ + m@);
            Err(Error::Other(string_from_chars(&v)))
        },
        Err(PngFailure::Data(m)) => {
            let mut v: Vec<char> = Vec::new();
            push_str(&mut v, "PNG encode: ");
            push_str(&mut v, m.as_str());
            assert(v@ =~= "PNG encode: "@ + m@);
            Err(Error::Other(string_from_chars(&v)))
        },
    }
}

impl RawCapture {
    /// Encode the raw pixels as PNG.
    pub fn encode_png(&self) -> (r: Result<Vec<u8>, Error>)
        requires
            (self.width as int) * 4 * (self.height as int) <= usize::MAX,
        ensures
            match (r, spec_encode_png(self.width, self.height, self.data@)) {
                (Ok(b), Ok(s)) => b@ == s,
                (Err(e), Err(s)) => e@ == s,
                _ => false,
            },
    {
        encode_png(self.width, self.height, &self.data)
    }
}

/// The base64 text of a PNG image, as an image result carries it.
pub fn png_base64(png: &Vec<u8>) -> (r: String)
    requires
        4 * ((png@.len() + 2) / 3) <= usize::MAX,
    ensures
        r@ == spec_base64(png@),
{
    base64_standard(png)
}

} // verus!

verus! {

// ── The capture session ─────────────────────────────────────────────────────

/// Why the compositor failed a capture frame.
#[derive(Debug, Clone, Copy, PartialEq, Eq, Structural)]
pub enum FailureReason {
    BufferConstraints,
    Stopped,
    /// A reason this library does not know.
    Unknown,
}

/// The message of a failed frame.
pub open spec fn failure_message(reason: FailureReason) -> Seq<char> {
    match reason {
        FailureReason::BufferConstraints => "buffer constraints mismatch"@,
        FailureReason::Stopped => "session stopped"@,
        FailureReason::Unknown => "unknown failure"@,
    }
}

/// The capture signals a state carries.
pub open spec fn capture_signals_kept(a: AppData, b: AppData) -> bool {
    &&& a.output_state == b.output_state
    &&& a.seat_state == b.seat_state
    &&& a.workspace_state == b.workspace_state
    &&& a.workspace_groups == b.workspace_groups
    &&& a.toplevel_info_state == b.toplevel_info_state
    &&& a.toplevel_manager_state == b.toplevel_manager_state
    &&& a.monitor == b.monitor
    &&& a.workspaces_done == b.workspaces_done
    &&& a.toplevels_done == b.toplevels_done
}

impl AppData {
    /// Clears the capture signals before a capture session is opened.
    pub fn begin_capture(&mut self)
        ensures
            final(self).capture_formats is None,
            final(self).capture_result is None,
            capture_signals_kept(*old(self), *final(self)),
    {
        self.capture_formats = None;
        self.capture_result = None;
    }

    /// The session advertised its buffer constraints.
    pub fn init_done(&mut self, formats: Formats)
        ensures
            final(self).capture_formats == Some(formats),
            final(self).capture_result == old(self).capture_result,
            capture_signals_kept(*old(self), *final(self)),
    {
        self.capture_formats = Some(formats);
    }

    /// The session stopped.
    pub fn stopped(&mut self)
        ensures
            final(self).capture_result matches Some(CaptureResult::Stopped),
            final(self).capture_formats == old(self).capture_formats,
            capture_signals_kept(*old(self), *final(self)),
    {
        self.capture_result = Some(CaptureResult::Stopped);
    }

    /// The frame is ready: its pixels are in the shared buffer.
    pub fn ready(&mut self)
        ensures
            final(self).capture_result matches Some(CaptureResult::Ready),
            final(self).capture_formats == old(self).capture_formats,
            capture_signals_kept(*old(self), *final(self)),
    {
        self.capture_result = Some(CaptureResult::Ready);
    }

    /// The frame failed for `reason`.
    pub fn failed(&mut self, reason: FailureReason)
        ensures
            final(self).capture_result matches Some(CaptureResult::Failed(m)) && m@
                == failure_message(reason),
            final(self).capture_formats == old(self).capture_formats,
            capture_signals_kept(*old(self), *final(self)),
    {
        let msg = match reason {
            FailureReason::BufferConstraints => "buffer constraints mismatch",
            FailureReason::Stopped => "session stopped",
            FailureReason::Unknown => "unknown failure",
        };
        self.capture_result = Some(CaptureResult::Failed(to_owned_string(msg)));
    }
}

/// Whether the wait for buffer constraints is over: done once they are
/// known, an error when the session stopped first.
pub open spec fn spec_constraints_ready(st: AppData) -> Result<bool, ErrorView> {
    if st.capture_formats is Some {
        Ok(true)
    } else if st.capture_result matches Some(CaptureResult::Stopped) {
        Err(ErrorView::Other("capture session stopped before constraints"@))
    } else {
        Ok(false)
    }
}

/// The test run after each dispatch while waiting for buffer constraints.
pub fn constraints_ready(state: &AppData) -> (r: Result<bool, Error>)
    ensures
        result_view(r) == spec_constraints_ready(*state),
{
    if state.capture_formats.is_some() {
        return Ok(true);
    }
    match &state.capture_result {
        Some(CaptureResult::Stopped) => Err(other_error("capture session stopped before constraints")),
        _ => Ok(false),
    }
}

/// Whether the wait for the frame is over: done when it is ready, an error
/// when it failed or the session stopped.
pub open spec fn spec_frame_ready(st: AppData) -> Result<bool, ErrorView> {
    match st.capture_result {
        Some(CaptureResult::Ready) => Ok(true),
        Some(CaptureResult::Failed(m)) => Err(ErrorView::Other("capture failed: "@ + m@)),
        Some(CaptureResult::Stopped) => Err(ErrorView::Other("capture session stopped during frame"@)),
        None => Ok(false),
    }
}

/// The test run after each dispatch while waiting for the frame.
pub fn frame_ready(state: &AppData) -> (r: Result<bool, Error>)
    ensures
        result_view(r) == spec_frame_ready(*state),
{
    match &state.capture_result {
        Some(CaptureResult::Ready) => Ok(true),
        Some(CaptureResult::Failed(m)) => {
            let mut v: Vec<char> = Vec::new();
            push_str(&mut v, "capture failed: ");
            push_str(&mut v, m.as_str());
            assert(v@ =~= "capture failed: "@ + m@);
            Err(Error::Other(string_from_chars(&v)))
        },
        Some(CaptureResult::Stopped) => Err(other_error("capture session stopped during frame")),
        None => Ok(false),
    }
}

/// A bounded wait: how many more dispatches it may run.
#[derive(Debug, Clone, PartialEq, Eq)]
pub struct Wait {
    pub rounds_left: usize,
}

/// What to do after a dispatch and its test.
#[derive(Debug, PartialEq, Eq)]
pub enum WaitStep {
    /// Dispatch once more.
    Dispatch,
    /// Stop waiting: `Ok` when the test passed or the rounds ran out (the
    /// caller checks the outcome itself), the test's error otherwise.
    Finish(Result<(), Error>),
}

impl Wait {
    /// A wait that dispatches at most `max_rounds` times.
    pub fn new(max_rounds: usize) -> (r: Wait)
        ensures
            r.rounds_left == max_rounds,
    {
        Wait { rounds_left: max_rounds }
    }

    /// Whether the wait may dispatch at all.
    pub fn may_dispatch(&self) -> (r: bool)
        ensures
            r == (self.rounds_left > 0),
    {
        self.rounds_left > 0
    }

    /// The decision after one dispatch, given the outcome of the test.
    pub fn after_dispatch(&mut self, outcome: Result<bool, Error>) -> (r: WaitStep)
        requires
            old(self).rounds_left > 0,
        ensures
            final(self).rounds_left == old(self).rounds_left - 1,
            match outcome {
                Ok(true) => r matches WaitStep::Finish(Ok(())),
                Err(e) => r matches WaitStep::Finish(Err(e2)) && e2@ == e@,
                Ok(false) => if final(self).rounds_left == 0 {
                    r matches WaitStep::Finish(Ok(()))
                } else {
                    r is Dispatch
                },
            },
    {
        self.rounds_left = self.rounds_left - 1;
        match outcome {
            Ok(true) => WaitStep::Finish(Ok(())),
            Err(e) => WaitStep::Finish(Err(e)),
            Ok(false) => {
                if self.rounds_left == 0 {
                    WaitStep::Finish(Ok(()))
                } else {
                    WaitStep::Dispatch
                }
            },
        }
    }
}

/// The buffer to allocate for a frame.
#[derive(Debug, Clone, Copy, PartialEq, Eq, Structural)]
pub struct FramePlan {
    pub width: u32,
    pub height: u32,
    /// Bytes per row: four per pixel.
    pub stride: u32,
    /// Bytes of the whole frame.
    pub buf_size: usize,
    pub format: PixelFormat,
}

/// The frame buffer the advertised constraints call for: an error when
/// none were advertised, when the buffer is empty, or when no readable
/// pixel format is offered.
pub open spec fn spec_frame_plan(formats: Option<Formats>) -> Result<FramePlan, ErrorView> {
    match formats {
        None => Err(ErrorView::Other("compositor never advertised buffer constraints"@)),
        Some(f) => if f.buffer_width == 0 || f.buffer_height == 0 {
            Err(ErrorView::Other("compositor reported zero-size buffer"@))
        } else {
            match spec_pick_format(f.shm_formats@) {
                Err(e) => Err(e),
                Ok(p) => Ok(
                    FramePlan {
                        width: f.buffer_width,
                        height: f.buffer_height,
                        stride: (f.buffer_width * 4) as u32,
                        buf_size: (f.buffer_width * 4 * f.buffer_height) as usize,
                        format: p,
                    },
                ),
            }
        },
    }
}

/// The buffer size of the advertised constraints fits the 32-bit sizes
/// that the buffer is created with.
pub open spec fn frame_fits(formats: Option<Formats>) -> bool {
    formats matches Some(f) ==> (f.buffer_width as int) * 4 * (f.buffer_height as int) <= u32::MAX
}

impl AppData {
    /// Takes the advertised buffer constraints and plans the frame buffer.
    pub fn take_constraints(&mut self) -> (r: Result<FramePlan, Error>)
        requires
            frame_fits(old(self).capture_formats),
        ensures
            result_view(r) == spec_frame_plan(old(self).capture_formats),
            final(self).capture_formats is None,
            final(self).capture_result == old(self).capture_result,
            capture_signals_kept(*old(self), *final(self)),
    {
        let taken = self.capture_formats.take();
        let f = match taken {
            None => return Err(other_error("compositor never advertised buffer constraints")),
            Some(f) => f,
        };
        if f.buffer_width == 0 || f.buffer_height == 0 {
            return Err(other_error("compositor reported zero-size buffer"));
        }
        let format = match pick_format(&f) {
            Err(e) => return Err(e),
            Ok(p) => p,
        };
        assert((f.buffer_width as int) * 4 <= u32::MAX) by (nonlinear_arith)
            requires
                (f.buffer_width as int) * 4 * (f.buffer_height as int) <= u32::MAX,
                f.buffer_height >= 1,
        ;
        let stride: u32 = f.buffer_width * 4;
        let size: u32 = stride * f.buffer_height;
        Ok(
            FramePlan {
                width: f.buffer_width,
                height: f.buffer_height,
                stride,
                buf_size: size as usize,
                format,
            },
        )
    }
}

/// What reading the frame gives: the converted pixels of the first
/// `buf_size` bytes of the buffer once the frame is ready, else the timeout
/// error.
pub open spec fn spec_finish_frame(st: AppData, canvas: Seq<u8>, plan: FramePlan) -> Result<
    (u32, u32, Seq<u8>),
    ErrorView,
> {
    if st.capture_result matches Some(CaptureResult::Ready) {
        Ok(
            (
                plan.width,
                plan.height,
                spec_to_rgba(canvas.take(plan.buf_size as int), plan.format),
            ),
        )
    } else {
        Err(ErrorView::Other("capture timed out waiting for frame"@))
    }
}

/// Reads the captured frame out of the buffer once the wait is over.
pub fn finish_frame(state: &AppData, canvas: &Vec<u8>, plan: &FramePlan) -> (r: Result<RawCapture, Error>)
    requires
        plan.buf_size <= canvas@.len(),
    ensures
        match (r, spec_finish_frame(*state, canvas@, *plan)) {
            (Ok(c), Ok(s)) => (c.width, c.height, c.data@) == s,
            (Err(e), Err(s)) => e@ == s,
            _ => false,
        },
{
    match &state.capture_result {
        Some(CaptureResult::Ready) => {},
        _ => return Err(other_error("capture timed out waiting for frame")),
    }
    let mut bytes: Vec<u8> = Vec::new();
    let mut i: usize = 0;
    while i < plan.buf_size
        invariant
            i <= plan.buf_size,
            plan.buf_size <= canvas@.len(),
            bytes@ =~= canvas@.take(i as int),
        decreases plan.buf_size - i,
    {
        bytes.push(canvas[i]);
        i = i + 1;
    }
    let data = to_rgba(bytes, plan.format);
    Ok(RawCapture { width: plan.width, height: plan.height, data })
}

} // verus!

verus! {

// ── Laws of the conversion ──────────────────────────────────────────────────

/// The conversion keeps the length, makes every whole pixel opaque, and
/// leaves green untouched.
pub proof fn law_rgba_opaque(p: Seq<u8>, fmt: PixelFormat)
    ensures
        spec_to_rgba(p, fmt).len() == p.len(),
        forall|i: int|
            0 <= i < p.len() - p.len() % 4 && i % 4 == 3 ==> #[trigger] spec_to_rgba(p, fmt)[i] == 255,
        forall|i: int|
            0 <= i < p.len() && i % 4 == 1 ==> #[trigger] spec_to_rgba(p, fmt)[i] == p[i],
{
}

/// Converting twice: for a format that swaps red and blue the second swap
/// undoes the first, leaving only the opaque alpha; for one that does not
/// swap, the second conversion changes nothing.
pub proof fn law_rgba_twice(p: Seq<u8>, fmt: PixelFormat)
    ensures
        needs_rb_swap(fmt) ==> spec_to_rgba(spec_to_rgba(p, fmt), fmt) == spec_to_rgba(
            p,
            PixelFormat::Abgr8888,
        ),
        !needs_rb_swap(fmt) ==> spec_to_rgba(spec_to_rgba(p, fmt), fmt) == spec_to_rgba(p, fmt),
{
    let q = spec_to_rgba(p, fmt);
    assert forall|i: int| 0 <= i < p.len() implies #[trigger] spec_to_rgba(q, fmt)[i] == (if needs_rb_swap(fmt) {
        spec_to_rgba(p, PixelFormat::Abgr8888)[i]
    } else {
        q[i]
    }) by {
        let whole = p.len() - p.len() % 4;
        if i < whole && i % 4 == 0 {
            assert((i + 2) % 4 == 2);
            assert(i + 2 < whole);
        }
        if i < whole && i % 4 == 2 {
            assert((i - 2) % 4 == 0);
        }
    }
    if needs_rb_swap(fmt) {
        assert(spec_to_rgba(q, fmt) =~= spec_to_rgba(p, PixelFormat::Abgr8888));
    } else {
        assert(spec_to_rgba(q, fmt) =~= q);
    }
}

} // verus!

verus! {

/// Base64 text is four digits for every started group of three bytes.
pub proof fn law_base64_length(b: Seq<u8>)
    ensures
        spec_base64(b).len() == 4 * ((b.len() + 2) / 3),
    decreases b.len(),
{
    if b.len() >= 3 {
        law_base64_length(b.skip(3));
    }
}

} // verus!
