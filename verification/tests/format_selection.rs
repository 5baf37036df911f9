use trackfetch::format::{
    format_data_rate, format_preference, get_extension_from_format, is_ogg_vorbis, payload_offset,
    select_format, AudioFiles, AudioFormat, EncodingCandidate, FileId, OGG_HEADER_END,
};

fn file(tag: u8) -> FileId {
    FileId([tag; 20])
}

fn all_formats() -> Vec<AudioFormat> {
    vec![
        AudioFormat::OggVorbis_96,
        AudioFormat::OggVorbis_160,
        AudioFormat::OggVorbis_320,
        AudioFormat::Mp3_256,
        AudioFormat::Mp3_320,
        AudioFormat::Mp3_160,
        AudioFormat::Mp3_96,
        AudioFormat::Mp3_160_Enc,
        AudioFormat::Aac_24,
        AudioFormat::Aac_48,
        AudioFormat::Flac,
        AudioFormat::XheAac_24,
        AudioFormat::XheAac_16,
        AudioFormat::XheAac_12,
        AudioFormat::Flac_24Bit,
        AudioFormat::Aac_160,
        AudioFormat::Aac_320,
        AudioFormat::Mp4_128,
        AudioFormat::Other5,
    ]
}

#[test]
fn preference_lists_every_format_once() {
    let order = format_preference();
    assert_eq!(order.len(), 19);
    for format in all_formats() {
        assert_eq!(order.iter().filter(|f| **f == format).count(), 1);
    }
    assert_eq!(order[0], AudioFormat::Flac_24Bit);
    assert_eq!(order[1], AudioFormat::Flac);
    assert_eq!(order[5], AudioFormat::OggVorbis_320);
    assert_eq!(order[18], AudioFormat::Other5);
}

#[test]
fn selects_the_earliest_preferred_format() {
    let mut files = AudioFiles::new();
    files.insert(AudioFormat::OggVorbis_96, file(1));
    files.insert(AudioFormat::Mp3_320, file(2));
    files.insert(AudioFormat::OggVorbis_320, file(3));
    assert_eq!(
        select_format(&files),
        Some(EncodingCandidate { format: AudioFormat::Mp3_320, file: file(2) })
    );
}

#[test]
fn selection_does_not_depend_on_insertion_order() {
    let mut forward = AudioFiles::new();
    forward.insert(AudioFormat::Aac_24, file(7));
    forward.insert(AudioFormat::OggVorbis_160, file(8));
    forward.insert(AudioFormat::Mp3_96, file(9));
    let mut backward = AudioFiles::new();
    backward.insert(AudioFormat::Mp3_96, file(9));
    backward.insert(AudioFormat::OggVorbis_160, file(8));
    backward.insert(AudioFormat::Aac_24, file(7));
    let expected = Some(EncodingCandidate { format: AudioFormat::OggVorbis_160, file: file(8) });
    assert_eq!(select_format(&forward), expected);
    assert_eq!(select_format(&backward), expected);
}

#[test]
fn every_single_format_is_selected_when_alone() {
    for format in all_formats() {
        let mut files = AudioFiles::new();
        files.insert(format, file(4));
        assert_eq!(select_format(&files), Some(EncodingCandidate { format, file: file(4) }));
    }
}

#[test]
fn nothing_is_selected_from_an_empty_mapping() {
    assert_eq!(select_format(&AudioFiles::new()), None);
}

#[test]
fn insert_replaces_the_file_of_a_format() {
    let mut files = AudioFiles::new();
    assert_eq!(files.get(AudioFormat::Flac), None);
    files.insert(AudioFormat::Flac, file(1));
    files.insert(AudioFormat::Mp3_160, file(2));
    files.insert(AudioFormat::Flac, file(3));
    assert_eq!(files.get(AudioFormat::Flac), Some(file(3)));
    assert_eq!(files.get(AudioFormat::Mp3_160), Some(file(2)));
    assert_eq!(files.get(AudioFormat::Aac_48), None);
}

#[test]
fn extensions_go_by_codec_family() {
    assert_eq!(get_extension_from_format(AudioFormat::OggVorbis_96), "ogg");
    assert_eq!(get_extension_from_format(AudioFormat::OggVorbis_160), "ogg");
    assert_eq!(get_extension_from_format(AudioFormat::OggVorbis_320), "ogg");
    assert_eq!(get_extension_from_format(AudioFormat::Mp3_96), "mp3");
    assert_eq!(get_extension_from_format(AudioFormat::Mp3_160), "mp3");
    assert_eq!(get_extension_from_format(AudioFormat::Mp3_256), "mp3");
    assert_eq!(get_extension_from_format(AudioFormat::Mp3_320), "mp3");
    assert_eq!(get_extension_from_format(AudioFormat::Mp3_160_Enc), "mp3");
    assert_eq!(get_extension_from_format(AudioFormat::Aac_24), "aac");
    assert_eq!(get_extension_from_format(AudioFormat::Aac_48), "aac");
    assert_eq!(get_extension_from_format(AudioFormat::Aac_160), "aac");
    assert_eq!(get_extension_from_format(AudioFormat::Aac_320), "aac");
    assert_eq!(get_extension_from_format(AudioFormat::Mp4_128), "aac");
    assert_eq!(get_extension_from_format(AudioFormat::XheAac_12), "aac");
    assert_eq!(get_extension_from_format(AudioFormat::XheAac_16), "aac");
    assert_eq!(get_extension_from_format(AudioFormat::XheAac_24), "aac");
    assert_eq!(get_extension_from_format(AudioFormat::Flac), "flac");
    assert_eq!(get_extension_from_format(AudioFormat::Flac_24Bit), "flac");
    assert_eq!(get_extension_from_format(AudioFormat::Other5), "bin");
}

#[test]
fn data_rates_are_the_tuned_constants() {
    assert_eq!(format_data_rate(AudioFormat::OggVorbis_96), 12288);
    assert_eq!(format_data_rate(AudioFormat::OggVorbis_160), 20480);
    assert_eq!(format_data_rate(AudioFormat::OggVorbis_320), 40960);
    assert_eq!(format_data_rate(AudioFormat::Mp3_256), 32768);
    assert_eq!(format_data_rate(AudioFormat::Mp3_320), 40960);
    assert_eq!(format_data_rate(AudioFormat::Mp3_160), 20480);
    assert_eq!(format_data_rate(AudioFormat::Mp3_96), 12288);
    assert_eq!(format_data_rate(AudioFormat::Mp3_160_Enc), 20480);
    assert_eq!(format_data_rate(AudioFormat::Aac_24), 3072);
    assert_eq!(format_data_rate(AudioFormat::Aac_48), 6144);
    assert_eq!(format_data_rate(AudioFormat::Aac_160), 20480);
    assert_eq!(format_data_rate(AudioFormat::Aac_320), 40960);
    assert_eq!(format_data_rate(AudioFormat::Mp4_128), 16384);
    assert_eq!(format_data_rate(AudioFormat::Other5), 40960);
    assert_eq!(format_data_rate(AudioFormat::Flac), 114688);
    assert_eq!(format_data_rate(AudioFormat::XheAac_12), 1536);
    assert_eq!(format_data_rate(AudioFormat::XheAac_16), 2048);
    assert_eq!(format_data_rate(AudioFormat::XheAac_24), 3072);
    assert_eq!(format_data_rate(AudioFormat::Flac_24Bit), 3072);
}

#[test]
fn only_vorbis_streams_carry_a_header() {
    assert_eq!(OGG_HEADER_END, 167);
    for format in all_formats() {
        let vorbis = matches!(
            format,
            AudioFormat::OggVorbis_96 | AudioFormat::OggVorbis_160 | AudioFormat::OggVorbis_320
        );
        assert_eq!(is_ogg_vorbis(format), vorbis);
        assert_eq!(payload_offset(format), if vorbis { 167 } else { 0 });
    }
}
