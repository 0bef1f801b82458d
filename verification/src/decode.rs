use vstd::prelude::*;

use crate::errors::ScanError;
use crate::track::TrackSummary;
use crate::track::audio_params;
use crate::track::select_track;
use ebur128::EbuR128;

verus! {

// The per-file analysis pipeline: probe the container, pick the audio track,
// then drive the decode loop. The loop pulls packets, discards packets of
// other tracks, decodes packets of the selected track and routes each decoded
// buffer to the loudness accumulator by its sample representation. The
// container, decoder and accumulator are outside capabilities; what the
// accumulator has been fed is tracked abstractly as a sequence of ingest
// records, and every decision the loop takes is verified against it.

#[verifier::external_type_specification]
#[verifier::external_body]
pub struct ExMediaSourceStream(symphonia::core::io::MediaSourceStream);

#[verifier::external_type_specification]
#[verifier::external_body]
pub struct ExHint(symphonia::core::probe::Hint);

#[verifier::external_type_specification]
#[verifier::external_body]
pub struct ExTrack(symphonia::core::formats::Track);

#[verifier::external_type_specification]
#[verifier::external_body]
pub struct ExPacket(symphonia::core::formats::Packet);

#[verifier::external_type_specification]
#[verifier::external_body]
pub struct ExEbuR128(EbuR128);

/// The packet stream of an opened, format-probed container.
#[verifier::external_body]
pub struct ContainerReader {
    inner: Box<dyn symphonia::core::formats::FormatReader>,
}

/// A decoder bound to one track's codec parameters. After a successful
/// decode it keeps the decoded buffer until the next decode.
#[verifier::external_body]
pub struct AudioDecoder {
    inner: Box<dyn symphonia::core::codecs::Decoder>,
}

/// One supported ingestion of decoded samples into the accumulator.
#[derive(Clone, Copy, Debug, PartialEq, Eq, Structural)]
pub enum IngestKind {
    /// Planar 32-bit floating-point samples.
    Float32,
    /// Planar 16-bit signed-integer samples.
    Signed16,
}

/// The ingest records an accumulator has been fed so far, oldest first. A
/// delivery whose decoded buffer holds no frames feeds nothing and appends
/// no record.
pub uninterp spec fn ingested(accumulator: EbuR128) -> Seq<IngestKind>;

/// One step of the accumulator's history: it either stays as it is (a
/// delivery that carried no frames) or grows by exactly one record of the
/// given kind.
pub open spec fn history_step(before: Seq<IngestKind>, after: Seq<IngestKind>, kind: IngestKind) -> bool {
    after == before || after == before.push(kind)
}

/// The file-extension hint a probe hint currently carries, if any. A hint
/// stores at most one extension: registering another replaces it.
pub uninterp spec fn hint_ext(hint: symphonia::core::probe::Hint) -> Option<Seq<char>>;

/// The channel count and sample rate an accumulator was constructed with.
pub uninterp spec fn accumulator_format(accumulator: EbuR128) -> (u32, u32);

/// The outcome of asking the container for its next packet: a packet tagged
/// with its track, a clean end of stream, or a genuine failure.
pub enum PacketEvent {
    Next { track_id: u32, packet: symphonia::core::formats::Packet },
    EndOfStream,
    Fatal { detail: String },
}

/// The concrete sample representation of a decoded buffer, reduced to the
/// closed set the dispatcher distinguishes.
#[derive(Clone, Copy, Debug, PartialEq, Eq, Structural)]
pub enum BufferKind {
    /// Planar 32-bit floating-point samples.
    PlanarFloat32,
    /// Planar 16-bit signed-integer samples.
    PlanarSigned16,
    /// Any other representation; deliberately not converted.
    Other,
}

/// What the decode loop does with one packet event.
#[derive(Clone, Copy, Debug, PartialEq, Eq, Structural)]
pub enum StepAction {
    /// Decode the packet and feed the accumulator: it belongs to the
    /// selected track.
    Deliver,
    /// Discard the packet silently: it belongs to another track.
    Skip,
    /// Stop with success: the stream ended cleanly.
    Finish,
    /// Stop with a decode error.
    Abort,
}

/// How the loop continues after one processed event.
#[derive(Clone, Copy, Debug, PartialEq, Eq, Structural)]
pub enum LoopStep {
    Continue,
    Finished,
}

/// Whether one successful delivery fed the accumulator anything.
#[derive(Clone, Copy, Debug, PartialEq, Eq, Structural)]
pub enum IngestOutcome {
    /// The buffer held frames; one ingest record was appended.
    Fed,
    /// The buffer held no frames; the accumulator is exactly as it was.
    Empty,
}

/// Relies on symphonia's Hint::new: a fresh probe hint carries no extension.
#[verifier::external_body]
fn hint_new() -> (h: symphonia::core::probe::Hint)
    ensures
        hint_ext(h) is None,
{
    symphonia::core::probe::Hint::new()
}

/// Relies on symphonia's Hint::with_extension: stores the extension as the
/// hint's one extension slot, replacing whatever was registered before.
#[verifier::external_body]
fn hint_with_extension(hint: &mut symphonia::core::probe::Hint, extension: &str)
    ensures
        hint_ext(*final(hint)) == Some(extension@),
{
    hint.with_extension(extension);
}

/// Relies on symphonia's Probe::format (via symphonia::default::get_probe)
/// to recognize the container and hand back its format reader.
#[verifier::external_body]
fn probe_format(hint: &symphonia::core::probe::Hint, stream: symphonia::core::io::MediaSourceStream) -> (r: Result<ContainerReader, String>) {
    let format_opts = symphonia::core::formats::FormatOptions::default();
    let metadata_opts = symphonia::core::meta::MetadataOptions::default();
    match symphonia::default::get_probe().format(hint, stream, &format_opts, &metadata_opts) {
        Ok(probed) => Ok(ContainerReader { inner: probed.format }),
        Err(e) => Err(format!("{}", e)),
    }
}

/// Relies on symphonia's FormatReader::tracks: the container's tracks, in
/// declared order.
#[verifier::external_body]
fn container_tracks(reader: &ContainerReader) -> (r: Vec<symphonia::core::formats::Track>) {
    reader.inner.tracks().to_vec()
}

/// Relies on symphonia's Track fields and Channels::count: reads what the
/// scan needs of one track. The null placeholder codec marks a track that
/// carries no decodable audio.
#[verifier::external_body]
fn summarize_track(track: &symphonia::core::formats::Track) -> (r: TrackSummary) {
    TrackSummary {
        id: track.id,
        has_audio_codec: track.codec_params.codec != symphonia::core::codecs::CODEC_TYPE_NULL,
        channels: track.codec_params.channels.map(|c| c.count() as u32),
        sample_rate: track.codec_params.sample_rate,
    }
}

/// Relies on symphonia's CodecRegistry::make (via symphonia::default::
/// get_codecs) to construct a decoder for the track's codec parameters;
/// fails when no decoder is registered for that codec.
#[verifier::external_body]
fn make_decoder(track: &symphonia::core::formats::Track) -> (r: Result<AudioDecoder, String>) {
    let options = symphonia::core::codecs::DecoderOptions::default();
    match symphonia::default::get_codecs().make(&track.codec_params, &options) {
        Ok(inner) => Ok(AudioDecoder { inner }),
        Err(e) => Err(format!("{}", e)),
    }
}

/// Relies on ebur128's EbuR128::new in integrated mode: construction
/// succeeds exactly for a channel count between 1 and 64 and a sample rate
/// between 16 and 2822400 Hz; a fresh accumulator has been fed nothing and
/// keeps the channel count and sample rate it was constructed with.
#[verifier::external_body]
fn new_accumulator(channels: u32, sample_rate: u32) -> (r: Result<EbuR128, String>)
    ensures
        r is Ok <==> (1 <= channels <= 64 && 16 <= sample_rate <= 2822400),
        r is Ok ==> ingested(r->Ok_0) == Seq::<IngestKind>::empty(),
        r is Ok ==> accumulator_format(r->Ok_0) == (channels, sample_rate),
{
    ebur128::EbuR128::new(channels, sample_rate, ebur128::Mode::I).map_err(|e| format!("{}", e))
}

/// Relies on symphonia's FormatReader::next_packet and Packet::track_id.
/// Symphonia reports a clean end of stream as an I/O error of the
/// unexpected-end-of-input kind; this wrapper distinguishes exactly that
/// condition from every other failure.
#[verifier::external_body]
fn next_packet_event(reader: &mut ContainerReader) -> (ev: PacketEvent) {
    match reader.inner.next_packet() {
        Ok(packet) => PacketEvent::Next { track_id: packet.track_id(), packet },
        Err(symphonia::core::errors::Error::IoError(e)) if e.kind()
            == std::io::ErrorKind::UnexpectedEof => PacketEvent::EndOfStream,
        Err(e) => PacketEvent::Fatal { detail: format!("{}", e) },
    }
}

/// The sample representation of the buffer a decoder holds from its most
/// recent successful decode, reduced to the dispatcher's closed set.
pub uninterp spec fn decoded_kind(decoder: AudioDecoder) -> BufferKind;

/// Relies on symphonia's Decoder::decode: turns one packet into a decoded
/// buffer held by the decoder, reporting here only the buffer's sample
/// representation, reduced to the dispatcher's closed set.
#[verifier::external_body]
fn decode_packet(decoder: &mut AudioDecoder, packet: &symphonia::core::formats::Packet) -> (r: Result<BufferKind, String>)
    ensures
        r is Ok ==> decoded_kind(*final(decoder)) == r->Ok_0,
{
    match decoder.inner.decode(packet) {
        Ok(symphonia::core::audio::AudioBufferRef::F32(_)) => Ok(BufferKind::PlanarFloat32),
        Ok(symphonia::core::audio::AudioBufferRef::S16(_)) => Ok(BufferKind::PlanarSigned16),
        Ok(_) => Ok(BufferKind::Other),
        Err(e) => Err(format!("{}", e)),
    }
}

/// Relies on symphonia's Decoder::last_decoded and ebur128's
/// add_frames_planar_f32: feeds the decoder's planar 32-bit floating-point
/// buffer to the accumulator. A buffer without frames feeds nothing (ebur128
/// returns at once on an empty ingest, and reading the planes of a
/// zero-capacity buffer would panic), so it is answered `Empty` here; only a
/// delivery answered `Fed` appends a record. A buffer whose plane count
/// differs from the accumulator's channel count is rejected before the call:
/// ebur128 asserts on that mismatch instead of returning an error. On every
/// failure the accumulator is untouched, since ebur128's own error paths
/// precede any mutation.
#[verifier::external_body]
fn ingest_planar_float(decoder: &AudioDecoder, accumulator: &mut EbuR128) -> (r: Result<
    IngestOutcome,
    String,
>)
    ensures
        r == Ok::<IngestOutcome, String>(IngestOutcome::Fed) ==> ingested(*final(accumulator))
            == ingested(*old(accumulator)).push(IngestKind::Float32),
        r == Ok::<IngestOutcome, String>(IngestOutcome::Empty) ==> ingested(*final(accumulator))
            == ingested(*old(accumulator)),
        r is Err ==> ingested(*final(accumulator)) == ingested(*old(accumulator)),
        accumulator_format(*final(accumulator)) == accumulator_format(*old(accumulator)),
{
    match decoder.inner.last_decoded() {
        symphonia::core::audio::AudioBufferRef::F32(buffer) => {
            if buffer.capacity() == 0 || symphonia::core::audio::Signal::frames(buffer.as_ref()) == 0 {
                return Ok(IngestOutcome::Empty);
            }
            let planes = buffer.planes();
            let slices = planes.planes();
            if slices.len() != accumulator.channels() as usize {
                return Err(format!("buffer has {} planes for {} channels", slices.len(), accumulator.channels()));
            }
            accumulator.add_frames_planar_f32(slices).map_err(|e| format!("{}", e)).map(|_| IngestOutcome::Fed)
        },
        _ => Err(String::from("decoded buffer lost its planar float representation")),
    }
}

/// Relies on symphonia's Decoder::last_decoded and ebur128's
/// add_frames_planar_i16: feeds the decoder's planar 16-bit signed-integer
/// buffer to the accumulator. A buffer without frames feeds nothing (ebur128
/// returns at once on an empty ingest, and reading the planes of a
/// zero-capacity buffer would panic), so it is answered `Empty` here; only a
/// delivery answered `Fed` appends a record. A buffer whose plane count
/// differs from the accumulator's channel count is rejected before the call:
/// ebur128 asserts on that mismatch instead of returning an error. On every
/// failure the accumulator is untouched, since ebur128's own error paths
/// precede any mutation.
#[verifier::external_body]
fn ingest_planar_int(decoder: &AudioDecoder, accumulator: &mut EbuR128) -> (r: Result<
    IngestOutcome,
    String,
>)
    ensures
        r == Ok::<IngestOutcome, String>(IngestOutcome::Fed) ==> ingested(*final(accumulator))
            == ingested(*old(accumulator)).push(IngestKind::Signed16),
        r == Ok::<IngestOutcome, String>(IngestOutcome::Empty) ==> ingested(*final(accumulator))
            == ingested(*old(accumulator)),
        r is Err ==> ingested(*final(accumulator)) == ingested(*old(accumulator)),
        accumulator_format(*final(accumulator)) == accumulator_format(*old(accumulator)),
{
    match decoder.inner.last_decoded() {
        symphonia::core::audio::AudioBufferRef::S16(buffer) => {
            if buffer.capacity() == 0 || symphonia::core::audio::Signal::frames(buffer.as_ref()) == 0 {
                return Ok(IngestOutcome::Empty);
            }
            let planes = buffer.planes();
            let slices = planes.planes();
            if slices.len() != accumulator.channels() as usize {
                return Err(format!("buffer has {} planes for {} channels", slices.len(), accumulator.channels()));
            }
            accumulator.add_frames_planar_i16(slices).map_err(|e| format!("{}", e)).map(|_| IngestOutcome::Fed)
        },
        _ => Err(String::from("decoded buffer lost its planar integer representation")),
    }
}

/// The probe hint the scan registers before opening a container. Each
/// supported extension is registered in turn, but a hint keeps only the one
/// registered last, so the hint handed to the probe carries `wav`; detection
/// itself reads the stream's content, so every supported container is still
/// recognized.
pub fn create_probe_hint() -> (h: symphonia::core::probe::Hint)
    ensures
        hint_ext(h) == Some("wav"@),
{
    let mut hint = hint_new();
    hint_with_extension(&mut hint, "mp3");
    hint_with_extension(&mut hint, "ogg");
    hint_with_extension(&mut hint, "flac");
    hint_with_extension(&mut hint, "wav");
    hint
}

/// What the loop does with one packet event, given the selected track: a
/// clean end of stream finishes measurement, any other failure aborts it, a
/// packet of another track is skipped, and only a packet of the selected
/// track is delivered to the decoder.
pub open spec fn classify_spec(selected_track: u32, event: PacketEvent) -> StepAction {
    match event {
        PacketEvent::Next { track_id, .. } => if track_id == selected_track {
            StepAction::Deliver
        } else {
            StepAction::Skip
        },
        PacketEvent::EndOfStream => StepAction::Finish,
        PacketEvent::Fatal { .. } => StepAction::Abort,
    }
}

/// Decide what to do with one packet event.
pub fn classify_event(selected_track: u32, event: &PacketEvent) -> (r: StepAction)
    ensures
        r == classify_spec(selected_track, *event),
{
    match event {
        PacketEvent::Next { track_id, .. } => {
            if *track_id == selected_track {
                StepAction::Deliver
            } else {
                StepAction::Skip
            }
        },
        PacketEvent::EndOfStream => StepAction::Finish,
        PacketEvent::Fatal { .. } => StepAction::Abort,
    }
}

/// Where the dispatcher routes a buffer of the given representation: the two
/// supported planar representations each have their ingestion path, and
/// every other representation is rejected, never silently converted.
pub open spec fn route_spec(kind: BufferKind) -> Result<IngestKind, ScanError> {
    match kind {
        BufferKind::PlanarFloat32 => Ok(IngestKind::Float32),
        BufferKind::PlanarSigned16 => Ok(IngestKind::Signed16),
        BufferKind::Other => Err(ScanError::UnsupportedSampleFormat),
    }
}

/// Route one decoded buffer by its sample representation.
pub fn route_buffer(kind: BufferKind) -> (r: Result<IngestKind, ScanError>)
    ensures
        r == route_spec(kind),
{
    match kind {
        BufferKind::PlanarFloat32 => Ok(IngestKind::Float32),
        BufferKind::PlanarSigned16 => Ok(IngestKind::Signed16),
        BufferKind::Other => Err(ScanError::UnsupportedSampleFormat),
    }
}

/// Process one packet event. A skipped packet leaves the accumulator exactly
/// as it was, a clean end of stream finishes the loop without feeding it,
/// and a fatal container error surfaces as a `Decode` error carrying the
/// container's description — never as the end-of-stream path. A delivered
/// packet appends at most one ingest record, of the decoded buffer's kind;
/// a buffer without frames appends none.
pub fn process_event(
    event: PacketEvent,
    selected_track: u32,
    decoder: &mut AudioDecoder,
    accumulator: &mut EbuR128,
) -> (r: Result<LoopStep, ScanError>)
    ensures
        classify_spec(selected_track, event) == StepAction::Skip ==> (r == Ok::<
            LoopStep,
            ScanError,
        >(LoopStep::Continue) && ingested(*final(accumulator)) == ingested(*old(accumulator))),
        classify_spec(selected_track, event) == StepAction::Finish ==> (r == Ok::<
            LoopStep,
            ScanError,
        >(LoopStep::Finished) && ingested(*final(accumulator)) == ingested(*old(accumulator))),
        classify_spec(selected_track, event) == StepAction::Abort ==> (r == Err::<
            LoopStep,
            ScanError,
        >(ScanError::Decode { detail: event->Fatal_detail }) && ingested(*final(accumulator))
            == ingested(*old(accumulator))),
        r == Ok::<LoopStep, ScanError>(LoopStep::Finished) <==> classify_spec(
            selected_track,
            event,
        ) == StepAction::Finish,
        classify_spec(selected_track, event) == StepAction::Deliver && r is Ok ==> (history_step(
            ingested(*old(accumulator)),
            ingested(*final(accumulator)),
            IngestKind::Float32,
        ) || history_step(
            ingested(*old(accumulator)),
            ingested(*final(accumulator)),
            IngestKind::Signed16,
        )),
        classify_spec(selected_track, event) == StepAction::Deliver && r is Ok && decoded_kind(
            *final(decoder),
        ) == BufferKind::PlanarFloat32 ==> history_step(
            ingested(*old(accumulator)),
            ingested(*final(accumulator)),
            IngestKind::Float32,
        ),
        classify_spec(selected_track, event) == StepAction::Deliver && r is Ok && decoded_kind(
            *final(decoder),
        ) == BufferKind::PlanarSigned16 ==> history_step(
            ingested(*old(accumulator)),
            ingested(*final(accumulator)),
            IngestKind::Signed16,
        ),
        classify_spec(selected_track, event) == StepAction::Deliver && r is Err ==> ingested(
            *final(accumulator),
        ) == ingested(*old(accumulator)),
        r is Err ==> (r->Err_0 is Decode || r->Err_0 is UnsupportedSampleFormat),
        accumulator_format(*final(accumulator)) == accumulator_format(*old(accumulator)),
{
    match event {
        PacketEvent::EndOfStream => Ok(LoopStep::Finished),
        PacketEvent::Fatal { detail } => Err(ScanError::Decode { detail }),
        PacketEvent::Next { track_id, packet } => {
            if track_id != selected_track {
                Ok(LoopStep::Continue)
            } else {
                match decode_packet(decoder, &packet) {
                    Err(detail) => Err(ScanError::Decode { detail }),
                    Ok(kind) => match route_buffer(kind) {
                        Err(e) => Err(e),
                        Ok(IngestKind::Float32) => match ingest_planar_float(
                            decoder,
                            accumulator,
                        ) {
                            Ok(outcome) => {
                                proof {
                                    assert(outcome == IngestOutcome::Fed || outcome
                                        == IngestOutcome::Empty);
                                }
                                Ok(LoopStep::Continue)
                            },
                            Err(detail) => Err(ScanError::Decode { detail }),
                        },
                        Ok(IngestKind::Signed16) => match ingest_planar_int(decoder, accumulator) {
                            Ok(outcome) => {
                                proof {
                                    assert(outcome == IngestOutcome::Fed || outcome
                                        == IngestOutcome::Empty);
                                }
                                Ok(LoopStep::Continue)
                            },
                            Err(detail) => Err(ScanError::Decode { detail }),
                        },
                    },
                }
            }
        },
    }
}

/// Drive the decode loop to completion: pull packet events until a clean end
/// of stream, delivering, skipping or aborting per event. Every failure is a
/// `Decode` error or an `UnsupportedSampleFormat` error. The loop bounds how
/// many packets it will consume; no finite container comes anywhere near the
/// bound, and a stream that does is treated as failing to end.
pub fn run_decode_loop(
    reader: &mut ContainerReader,
    decoder: &mut AudioDecoder,
    accumulator: &mut EbuR128,
    selected_track: u32,
) -> (r: Result<(), ScanError>)
    ensures
        r is Err ==> (r->Err_0 is Decode || r->Err_0 is UnsupportedSampleFormat),
        ingested(*old(accumulator)).is_prefix_of(ingested(*final(accumulator))),
        accumulator_format(*final(accumulator)) == accumulator_format(*old(accumulator)),
{
    proof {
        lemma_prefix_reflexive(ingested(*accumulator));
    }
    let mut budget: u64 = u64::MAX;
    while budget > 0
        invariant
            ingested(*old(accumulator)).is_prefix_of(ingested(*accumulator)),
            accumulator_format(*accumulator) == accumulator_format(*old(accumulator)),
        decreases budget,
    {
        budget = budget - 1;
        let event = next_packet_event(reader);
        let ghost before = ingested(*accumulator);
        match process_event(event, selected_track, decoder, accumulator) {
            Ok(LoopStep::Finished) => {
                proof {
                    lemma_prefix_step(ingested(*old(accumulator)), before, ingested(*accumulator));
                }
                return Ok(());
            },
            Ok(LoopStep::Continue) => {
                proof {
                    lemma_prefix_step(ingested(*old(accumulator)), before, ingested(*accumulator));
                }
            },
            Err(e) => {
                proof {
                    lemma_prefix_step(ingested(*old(accumulator)), before, ingested(*accumulator));
                }
                return Err(e);
            },
        }
    }
    Err(ScanError::Decode { detail: "packet stream did not end".to_owned() })
}

proof fn lemma_prefix_reflexive(s: Seq<IngestKind>)
    ensures
        s.is_prefix_of(s),
{
    assert(s.subrange(0, s.len() as int) =~= s);
}

proof fn lemma_prefix_step(a: Seq<IngestKind>, b: Seq<IngestKind>, c: Seq<IngestKind>)
    requires
        a.is_prefix_of(b),
        c == b || c == b.push(IngestKind::Float32) || c == b.push(IngestKind::Signed16),
    ensures
        a.is_prefix_of(c),
{
    if c != b {
        assert(c.subrange(0, a.len() as int) =~= b.subrange(0, a.len() as int));
    }
}

/// Analyze one opened byte stream: probe its container, select the first
/// real audio track, size an accumulator from the track's parameters, and
/// run the decode loop; on success the returned accumulator has been fed the
/// whole selected track. Each failure surfaces as the pipeline stage's own
/// error kind.
pub fn analyze_container(stream: symphonia::core::io::MediaSourceStream) -> (r: Result<EbuR128, ScanError>)
    ensures
        r is Err ==> (r->Err_0 is Probe || r->Err_0 is NoAudioTrack || r->Err_0
            is UnsupportedCodec || r->Err_0 is InvalidAudioParameters || r->Err_0 is Decode
            || r->Err_0 is UnsupportedSampleFormat),
        r is Ok ==> (1 <= accumulator_format(r->Ok_0).0 <= 64 && 16 <= accumulator_format(
            r->Ok_0,
        ).1 <= 2822400),
{
    let hint = create_probe_hint();
    let mut reader = match probe_format(&hint, stream) {
        Ok(reader) => reader,
        Err(detail) => {
            return Err(ScanError::Probe { detail });
        },
    };
    let tracks = container_tracks(&reader);
    let mut summaries: Vec<TrackSummary> = Vec::new();
    let mut i: usize = 0;
    while i < tracks.len()
        invariant
            i <= tracks@.len(),
            summaries@.len() == i as int,
        decreases tracks@.len() - i,
    {
        summaries.push(summarize_track(&tracks[i]));
        i = i + 1;
    }
    let index = match select_track(&summaries) {
        Ok(index) => index,
        Err(e) => {
            return Err(e);
        },
    };
    let summary = summaries[index];
    let params = match audio_params(&summary) {
        Ok(params) => params,
        Err(e) => {
            return Err(e);
        },
    };
    let mut decoder = match make_decoder(&tracks[index]) {
        Ok(decoder) => decoder,
        Err(detail) => {
            return Err(ScanError::UnsupportedCodec { detail });
        },
    };
    let mut accumulator = match new_accumulator(params.0, params.1) {
        Ok(accumulator) => accumulator,
        Err(_) => {
            return Err(ScanError::InvalidAudioParameters);
        },
    };
    match run_decode_loop(&mut reader, &mut decoder, &mut accumulator, summary.id) {
        Ok(()) => Ok(accumulator),
        Err(e) => Err(e),
    }
}

} // verus!
