use std::io::Read;
use std::io::Seek;

use loudness_scan::decode::PacketEvent;
use loudness_scan::decode::StepAction;
use loudness_scan::decode::analyze_container;
use loudness_scan::decode::classify_event;
use loudness_scan::errors::ScanError;
use loudness_scan::report::report_decision;

fn push_u32(out: &mut Vec<u8>, v: u32) {
    out.extend_from_slice(&v.to_le_bytes());
}

fn push_u16(out: &mut Vec<u8>, v: u16) {
    out.extend_from_slice(&v.to_le_bytes());
}

/// A minimal 16-bit PCM stereo WAV holding one second of a square wave of
/// the given amplitude at 44100 Hz.
fn wav_square(amplitude: i16) -> Vec<u8> {
    let rate: u32 = 44100;
    let channels: u16 = 2;
    let frames: u32 = rate;
    let data_len: u32 = frames * channels as u32 * 2;
    let mut out = Vec::new();
    out.extend_from_slice(b"RIFF");
    push_u32(&mut out, 36 + data_len);
    out.extend_from_slice(b"WAVE");
    out.extend_from_slice(b"fmt ");
    push_u32(&mut out, 16);
    push_u16(&mut out, 1);
    push_u16(&mut out, channels);
    push_u32(&mut out, rate);
    push_u32(&mut out, rate * channels as u32 * 2);
    push_u16(&mut out, channels * 2);
    push_u16(&mut out, 16);
    out.extend_from_slice(b"data");
    push_u32(&mut out, data_len);
    // A 100 Hz square wave: 441 samples up, 441 samples down.
    for i in 0..frames {
        let sample = if (i / 441) % 2 == 0 { amplitude } else { -amplitude };
        for _ in 0..channels {
            out.extend_from_slice(&sample.to_le_bytes());
        }
    }
    out
}

fn stream_of(bytes: Vec<u8>) -> symphonia::core::io::MediaSourceStream {
    symphonia::core::io::MediaSourceStream::new(Box::new(std::io::Cursor::new(bytes)), Default::default())
}

fn measure(bytes: Vec<u8>) -> Result<f64, ScanError> {
    let accumulator = analyze_container(stream_of(bytes))?;
    accumulator.loudness_global().map_err(|e| ScanError::Measurement { detail: format!("{}", e) })
}

fn key(v: f64) -> i64 {
    let b = v.to_bits() as i64;
    b ^ (((b >> 63) as u64) >> 1) as i64
}

#[test]
fn wav_stream_measures_to_a_finite_loudness() {
    let loudness = measure(wav_square(20000)).unwrap();
    assert!(loudness.is_finite());
    assert!(loudness < 0.0);
}

#[test]
fn quieter_stream_measures_lower_loudness() {
    let loud = measure(wav_square(20000)).unwrap();
    let quiet = measure(wav_square(2000)).unwrap();
    assert!(quiet < loud);
}

#[test]
fn scan_reports_only_the_file_below_threshold() {
    // Two decodable files and one threshold between their measured
    // loudness values: only the quieter file's path is emitted.
    let loud = measure(wav_square(20000)).unwrap();
    let quiet = measure(wav_square(2000)).unwrap();
    let threshold = (loud + quiet) / 2.0;
    let verbose = false;

    let loud_decision = report_decision(key(loud), key(threshold), verbose);
    let quiet_decision = report_decision(key(quiet), key(threshold), verbose);
    assert!(!loud_decision.emit_path);
    assert!(quiet_decision.emit_path);
}

/// A minimal 24-bit PCM mono WAV: a sample representation outside the
/// dispatcher's closed supported set.
fn wav_24bit() -> Vec<u8> {
    let rate: u32 = 44100;
    let frames: u32 = rate / 2;
    let data_len: u32 = frames * 3;
    let mut out = Vec::new();
    out.extend_from_slice(b"RIFF");
    push_u32(&mut out, 36 + data_len);
    out.extend_from_slice(b"WAVE");
    out.extend_from_slice(b"fmt ");
    push_u32(&mut out, 16);
    push_u16(&mut out, 1);
    push_u16(&mut out, 1);
    push_u32(&mut out, rate);
    push_u32(&mut out, rate * 3);
    push_u16(&mut out, 3);
    push_u16(&mut out, 24);
    out.extend_from_slice(b"data");
    push_u32(&mut out, data_len);
    for i in 0..frames {
        let sample: i32 = if (i / 441) % 2 == 0 { 4_000_000 } else { -4_000_000 };
        out.extend_from_slice(&sample.to_le_bytes()[0..3]);
    }
    out
}

#[test]
fn unsupported_sample_representation_is_rejected() {
    let r = analyze_container(stream_of(wav_24bit()));
    assert!(matches!(r, Err(ScanError::UnsupportedSampleFormat)));
}

#[test]
fn unrecognized_bytes_fail_at_the_probe() {
    let bytes = b"this is not an audio container at all...".to_vec();
    let r = analyze_container(stream_of(bytes));
    assert!(matches!(r, Err(ScanError::Probe { .. })));
}

/// A source that serves the start of a WAV stream and then fails with an
/// I/O error that is not an end-of-stream condition.
struct FailingSource {
    data: std::io::Cursor<Vec<u8>>,
    served: usize,
    fail_after: usize,
}

impl Read for FailingSource {
    fn read(&mut self, buf: &mut [u8]) -> std::io::Result<usize> {
        if self.served >= self.fail_after {
            return Err(std::io::Error::new(
                std::io::ErrorKind::ConnectionAborted,
                "stream torn down mid-decode",
            ));
        }
        let n = self.data.read(buf)?;
        self.served += n;
        Ok(n)
    }
}

impl Seek for FailingSource {
    fn seek(&mut self, pos: std::io::SeekFrom) -> std::io::Result<u64> {
        self.data.seek(pos)
    }
}

impl symphonia::core::io::MediaSource for FailingSource {
    fn is_seekable(&self) -> bool {
        false
    }

    fn byte_len(&self) -> Option<u64> {
        None
    }
}

#[test]
fn mid_stream_failure_is_a_decode_error_not_end_of_stream() {
    let bytes = wav_square(20000);
    let source = FailingSource {
        data: std::io::Cursor::new(bytes),
        served: 0,
        fail_after: 64 * 1024,
    };
    let stream = symphonia::core::io::MediaSourceStream::new(Box::new(source), Default::default());
    let r = analyze_container(stream);
    assert!(matches!(r, Err(ScanError::Decode { .. })));
}

#[test]
fn truncated_stream_ends_measurement_cleanly() {
    // A stream that simply ends early hits the end-of-stream path, which is
    // normal termination, not a decode error.
    let mut bytes = wav_square(20000);
    bytes.truncate(bytes.len() / 2);
    let r = analyze_container(stream_of(bytes));
    assert!(r.is_ok());
}

#[test]
fn packet_of_another_track_is_skipped() {
    let packet = symphonia::core::formats::Packet::new_from_slice(4, 0, 0, &[0u8; 4]);
    let ev = PacketEvent::Next { track_id: 4, packet };
    assert_eq!(classify_event(5, &ev), StepAction::Skip);

    let packet = symphonia::core::formats::Packet::new_from_slice(5, 0, 0, &[0u8; 4]);
    let ev = PacketEvent::Next { track_id: 5, packet };
    assert_eq!(classify_event(5, &ev), StepAction::Deliver);
}

#[test]
fn end_of_stream_and_fatal_errors_classify_apart() {
    assert_eq!(classify_event(5, &PacketEvent::EndOfStream), StepAction::Finish);
    let ev = PacketEvent::Fatal { detail: "broken".to_string() };
    assert_eq!(classify_event(5, &ev), StepAction::Abort);
}
