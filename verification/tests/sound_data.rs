use ears::format::map_channels_to_format;
use ears::Action;
use ears::BufferFormat;
use ears::Event;
use ears::LoadError;
use ears::Loader;
use ears::SharedSoundData;
use ears::SndInfo;
use ears::SoundData;
use ears::Tags;

/// A stand-in for the decoder, the audio backend and the metadata reader:
/// enough knobs to drive every pipeline outcome.
struct MockWorld {
    context_active: bool,
    file_exists: bool,
    info: SndInfo,
    delivered: u64,
    backend_error: Option<String>,
    tags: Tags,
}

fn well_formed_world(channels: u32, frames: u32) -> MockWorld {
    MockWorld {
        context_active: true,
        file_exists: true,
        info: SndInfo { channels, samplerate: 44100, frames },
        delivered: u64::MAX,
        backend_error: None,
        tags: Tags::empty(),
    }
}

/// Drive the loading pipeline against the mock world, recording every
/// action it asks for.
fn run(path: &str, w: &MockWorld) -> (Result<SoundData, LoadError>, Vec<Action>) {
    let mut loader: Loader = SoundData::new(String::from(path));
    let mut performed: Vec<Action> = Vec::new();
    loop {
        let next = loader.current_action();
        match next {
            None => break,
            Some(action) => {
                performed.push(action);
                let ev = match action {
                    Action::CheckContext => Event::ContextStatus { active: w.context_active },
                    Action::OpenFile => Event::OpenResult {
                        ok: w.file_exists,
                        diagnostic: if w.file_exists {
                            String::new()
                        } else {
                            format!("{}: no such file", path)
                        },
                    },
                    Action::ReadInfo => Event::InfoRead { info: w.info },
                    Action::ReadSamples { count } => Event::SamplesRead {
                        count: count.min(w.delivered),
                    },
                    Action::GenBuffer => Event::BufferGenerated { buffer: 7 },
                    Action::Upload { .. } => Event::Uploaded,
                    Action::QueryBackendError => Event::BackendStatus {
                        error: w.backend_error.clone(),
                    },
                    Action::ExtractTags => Event::TagsExtracted { tags: w.tags.clone() },
                    Action::DeleteBuffer { .. } => Event::BufferDeleted,
                    Action::CloseFile => Event::Closed,
                };
                loader = loader.step(ev);
            }
        }
    }
    (loader.take_result().unwrap(), performed)
}

fn count_gen(performed: &[Action]) -> usize {
    performed.iter().filter(|a| matches!(a, Action::GenBuffer)).count()
}

fn count_del(performed: &[Action]) -> usize {
    performed.iter().filter(|a| matches!(a, Action::DeleteBuffer { .. })).count()
}

#[test]
#[allow(non_snake_case)]
fn sounddata_create_OK() {
    let (result, _) = run("shot.wav", &well_formed_world(1, 44100));
    let _snd_data = result.unwrap();
}

#[test]
#[allow(non_snake_case)]
fn sounddata_create_FAIL() {
    let mut w = well_formed_world(1, 44100);
    w.file_exists = false;
    let (result, _) = run("toto.wav", &w);
    assert!(matches!(result, Err(LoadError::FileOpenError { .. })));
}

#[test]
fn mono_sample_count_matches_frames() {
    let (result, _) = run("mono.wav", &well_formed_world(1, 1234));
    let sd = result.unwrap();
    assert_eq!(sd.nb_sample, 1234);
    assert_eq!(ears::sound_data::get_sndinfo(&sd).frames, 1234);
    assert_eq!(ears::sound_data::get_sndinfo(&sd).channels, 1);
}

#[test]
fn stereo_sample_count_doubles_frames() {
    let (result, _) = run("stereo.wav", &well_formed_world(2, 500));
    let sd = result.unwrap();
    assert_eq!(sd.nb_sample, 1000);
    assert_eq!(ears::sound_data::get_sndinfo(&sd).frames, 500);
}

#[test]
fn open_failure_allocates_no_buffer() {
    let mut w = well_formed_world(1, 100);
    w.file_exists = false;
    let (result, performed) = run("missing.wav", &w);
    assert!(matches!(result, Err(LoadError::FileOpenError { .. })));
    assert_eq!(count_gen(&performed), 0);
    assert_eq!(performed, vec![Action::CheckContext, Action::OpenFile]);
}

#[test]
fn no_context_no_file_access() {
    let mut w = well_formed_world(1, 100);
    w.context_active = false;
    let (result, performed) = run("shot.wav", &w);
    assert!(matches!(result, Err(LoadError::NoActiveContext)));
    assert_eq!(performed, vec![Action::CheckContext]);
    let decoder_calls = performed
        .iter()
        .filter(|a| {
            matches!(
                a,
                Action::OpenFile
                    | Action::ReadInfo
                    | Action::ReadSamples { .. }
                    | Action::ExtractTags
                    | Action::CloseFile
            )
        })
        .count();
    assert_eq!(decoder_calls, 0);
}

#[test]
fn embedded_title_is_preserved() {
    let mut w = well_formed_world(2, 64);
    w.tags.title = Some(String::from("Shot"));
    let (result, _) = run("shot.wav", &w);
    let sd = result.unwrap();
    assert_eq!(sd.get_tags().title, Some(String::from("Shot")));
}

#[test]
fn absent_tags_are_not_an_error() {
    let (result, _) = run("untagged.wav", &well_formed_world(1, 64));
    let sd = result.unwrap();
    let tags = sd.get_tags();
    assert_eq!(tags.title, None);
    assert_eq!(tags.artist, None);
    assert_eq!(tags.album, None);
    assert_eq!(tags.genre, None);
}

#[test]
fn buffer_released_exactly_once() {
    let (result, _) = run("shot.wav", &well_formed_world(1, 100));
    let mut sd = result.unwrap();
    let first = sd.release();
    let second = sd.release();
    assert_eq!(first, Some(Action::DeleteBuffer { buffer: 7 }));
    assert_eq!(second, None);
}

#[test]
fn two_holders_single_deletion() {
    let (result, _) = run("shot.wav", &well_formed_world(2, 100));
    let sd = result.unwrap();
    let mut shared = SharedSoundData::new(sd);
    shared.acquire();
    let first = shared.release_holder();
    assert_eq!(first, None);
    let second = shared.release_holder();
    assert_eq!(second, Some(Action::DeleteBuffer { buffer: 7 }));
    let after = shared.data.release();
    assert_eq!(after, None);
}

#[test]
fn upload_format_matches_channel_map() {
    let (result, performed) = run("stereo.wav", &well_formed_world(2, 250));
    let sd = result.unwrap();
    let upload = performed
        .iter()
        .find(|a| matches!(a, Action::Upload { .. }))
        .expect("a successful construction uploads");
    match upload {
        Action::Upload { buffer, format, byte_len, sample_rate } => {
            assert_eq!(Some(*format), map_channels_to_format(2));
            assert_eq!(*format, BufferFormat::Stereo16);
            assert_eq!(*buffer, ears::sound_data::get_buffer(&sd));
            assert_eq!(*byte_len, 2 * sd.nb_sample);
            assert_eq!(*sample_rate, 44100);
        }
        _ => unreachable!(),
    }
}

#[test]
fn short_read_is_a_decode_error() {
    let mut w = well_formed_world(2, 100);
    w.delivered = 37;
    let (result, performed) = run("truncated.wav", &w);
    match result {
        Err(LoadError::DecodeError { requested, read }) => {
            assert_eq!(requested, 200);
            assert_eq!(read, 37);
        }
        _ => panic!("expected a decode error"),
    }
    assert_eq!(count_gen(&performed), 0);
    assert_eq!(performed.last(), Some(&Action::CloseFile));
}

#[test]
fn unrecognized_channels_are_unsupported() {
    let (result, performed) = run("surround.wav", &well_formed_world(6, 100));
    match result {
        Err(LoadError::UnsupportedFormat { channels }) => assert_eq!(channels, 6),
        _ => panic!("expected an unsupported format error"),
    }
    assert_eq!(count_gen(&performed), 0);
    assert_eq!(performed.last(), Some(&Action::CloseFile));
}

#[test]
fn backend_error_deletes_the_buffer() {
    let mut w = well_formed_world(1, 100);
    w.backend_error = Some(String::from("out of device memory"));
    let (result, performed) = run("shot.wav", &w);
    match result {
        Err(LoadError::BackendError { message }) => {
            assert_eq!(message, "out of device memory");
        }
        _ => panic!("expected a backend error"),
    }
    assert_eq!(count_gen(&performed), 1);
    assert_eq!(count_del(&performed), 1);
    assert!(performed.contains(&Action::DeleteBuffer { buffer: 7 }));
    assert_eq!(performed.last(), Some(&Action::CloseFile));
}

#[test]
fn channel_map_exact_table() {
    assert_eq!(map_channels_to_format(1), Some(BufferFormat::Mono16));
    assert_eq!(map_channels_to_format(2), Some(BufferFormat::Stereo16));
    assert_eq!(map_channels_to_format(0), None);
    assert_eq!(map_channels_to_format(3), None);
}

#[test]
fn getters_report_captured_values() {
    let (result, _) = run("shot.wav", &well_formed_world(2, 8000));
    let sd = result.unwrap();
    assert_eq!(ears::sound_data::get_buffer(&sd), 7);
    let info = ears::sound_data::get_sndinfo(&sd);
    assert_eq!(info.channels, 2);
    assert_eq!(info.samplerate, 44100);
    assert_eq!(info.frames, 8000);
}

#[test]
fn file_closed_on_success() {
    let (result, performed) = run("shot.wav", &well_formed_world(1, 100));
    assert!(result.is_ok());
    assert_eq!(performed.last(), Some(&Action::CloseFile));
}
