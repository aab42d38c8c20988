use rolling_sampler::converter::conversion_settings;
use rolling_sampler::error::BufferError;
use rolling_sampler::monitor::BlockPlan;
use rolling_sampler::naming::{file_safe_timestamp, recording_path, STAMP_PATTERN};
use rolling_sampler::plot::plot_points;
use rolling_sampler::recorder::{
    queue_capacity, window_samples, MonitorRequest, NativeConfig, Recorder, RecorderError,
    StreamFormat, StreamRequest, WavFormat,
};

fn stereo() -> NativeConfig {
    config(44100, 2)
}

fn config(sample_rate: u32, channels: u16) -> NativeConfig {
    NativeConfig { format: StreamFormat { sample_rate, channels }, is_float32: true }
}

fn tiny() -> NativeConfig {
    config(4, 2)
}

fn recorder() -> Recorder {
    Recorder::new(1, Some(2), Some(tiny()), 2, Some(String::from("/home/op/Desktop"))).unwrap()
}

#[test]
fn setup_takes_first_device_and_sizes_window() {
    let made = Recorder::new(5, Some(3), Some(stereo()), 1, None).unwrap();
    assert_eq!(made.buffer_size(), 5 * 44100);
    assert_eq!(made.config(), StreamFormat { sample_rate: 44100, channels: 2 });
    assert_eq!(made.current_input_device_index(), 0);
    assert_eq!(made.current_output_device_index(), 0);
    assert!(!made.is_grabbing());
    assert!(!made.is_monitoring());
    assert_eq!(made.save_path(), None);
    assert_eq!(made.get_samples_for_plot(), Vec::<u32>::new());
}

#[test]
fn setup_reports_each_fault() {
    let path = || Some(String::from("/tmp"));
    assert!(matches!(
        Recorder::new(5, None, Some(stereo()), 1, path()),
        Err(RecorderError::DevicesError)
    ));
    assert!(matches!(
        Recorder::new(5, Some(0), Some(stereo()), 1, path()),
        Err(RecorderError::NoInputDevices)
    ));
    assert!(matches!(Recorder::new(5, Some(1), None, 1, path()), Err(RecorderError::ConfigError)));
    let integer = NativeConfig { is_float32: false, ..stereo() };
    assert!(matches!(
        Recorder::new(5, Some(1), Some(integer), 1, path()),
        Err(RecorderError::UnsupportedFormat)
    ));
    assert!(matches!(
        Recorder::new(0, Some(1), Some(stereo()), 1, path()),
        Err(RecorderError::Buffer(BufferError::ZeroCapacity))
    ));
    let still = config(0, 2);
    assert!(matches!(
        Recorder::new(5, Some(1), Some(still), 1, path()),
        Err(RecorderError::Buffer(BufferError::ZeroCapacity))
    ));
    assert!(matches!(
        Recorder::new(usize::MAX, Some(1), Some(stereo()), 1, path()),
        Err(RecorderError::WindowTooLarge)
    ));
    assert!(matches!(Recorder::new(5, None, None, 0, None), Err(RecorderError::DevicesError)));
    assert!(matches!(Recorder::new(5, Some(0), None, 0, None), Err(RecorderError::NoInputDevices)));
}

#[test]
fn window_and_queue_sizes() {
    assert_eq!(window_samples(5, 44100), Some(220500));
    assert_eq!(window_samples(0, 44100), Some(0));
    assert_eq!(window_samples(usize::MAX, 2), None);
    assert_eq!(window_samples(usize::MAX, 1), Some(usize::MAX));
    assert_eq!(queue_capacity(44100), 176400);
    assert_eq!(queue_capacity(0), 0);
}

#[test]
fn grab_hands_out_window_and_later_input() {
    let mut recorder = recorder();
    recorder.on_input(&[1, 2, 3, 4, 5, 6]);
    assert_eq!(recorder.get_samples_for_plot(), vec![3, 4, 5, 6]);
    assert_eq!(recorder.begin_grab(), Ok(()));
    assert!(recorder.is_grabbing());
    recorder.on_input(&[7, 8, 9]);
    let save = recorder.grab_recording(1725980792).unwrap();
    assert_eq!(save.samples, vec![3, 4, 5, 6, 7, 8, 9]);
    assert_eq!(save.path, "/home/op/Desktop/2024-09-10_15-06-32.wav");
    assert_eq!(
        save.format,
        WavFormat { channels: 2, sample_rate: 4, bits_per_sample: 32, float: true }
    );
    assert_eq!(save.frames, 3);
    assert!(!recorder.is_grabbing());
    assert_eq!(recorder.get_samples_for_plot(), Vec::<u32>::new());
    recorder.on_input(&[10]);
    assert_eq!(recorder.get_samples_for_plot(), vec![10]);
}

#[test]
fn grab_is_refused_without_begin() {
    let mut recorder = recorder();
    recorder.on_input(&[1, 2]);
    assert!(matches!(
        recorder.grab_recording(0),
        Err(RecorderError::Buffer(BufferError::NotFrozen))
    ));
    assert_eq!(recorder.get_samples_for_plot(), vec![1, 2]);
}

#[test]
fn second_begin_is_refused() {
    let mut recorder = recorder();
    recorder.on_input(&[1, 2]);
    assert_eq!(recorder.begin_grab(), Ok(()));
    recorder.on_input(&[3]);
    assert_eq!(recorder.begin_grab(), Err(RecorderError::Buffer(BufferError::AlreadyFrozen)));
    assert_eq!(recorder.get_samples_for_plot(), vec![1, 2, 3]);
    assert!(recorder.is_grabbing());
}

#[test]
fn grab_without_directory_keeps_the_recording() {
    let mut recorder = Recorder::new(1, Some(1), Some(tiny()), 0, None).unwrap();
    recorder.on_input(&[1, 2]);
    recorder.begin_grab().unwrap();
    assert!(matches!(recorder.grab_recording(0), Err(RecorderError::NoHomeDirectory)));
    assert!(recorder.is_grabbing());
    recorder.set_save_path(String::from("/srv/audio"));
    assert_eq!(recorder.save_path(), Some(String::from("/srv/audio")));
    let save = recorder.grab_recording(0).unwrap();
    assert_eq!(save.samples, vec![1, 2]);
    assert_eq!(save.path, "/srv/audio/1970-01-01_00-00-00.wav");
}

#[test]
fn grab_at_a_moment_that_is_no_date_keeps_the_recording() {
    let mut recorder = recorder();
    recorder.on_input(&[1, 2]);
    recorder.begin_grab().unwrap();
    assert!(matches!(recorder.grab_recording(i64::MAX), Err(RecorderError::InvalidTime)));
    assert!(recorder.is_grabbing());
    assert_eq!(recorder.get_samples_for_plot(), vec![1, 2]);
}

#[test]
fn stamps_are_dates_in_utc() {
    assert_eq!(file_safe_timestamp(0), Some(String::from("1970-01-01_00-00-00")));
    assert_eq!(file_safe_timestamp(1725980792), Some(String::from("2024-09-10_15-06-32")));
    assert_eq!(file_safe_timestamp(-1), Some(String::from("1969-12-31_23-59-59")));
    assert_eq!(file_safe_timestamp(i64::MAX), None);
    assert_eq!(file_safe_timestamp(i64::MIN), None);
    assert_eq!(STAMP_PATTERN, "%Y-%m-%d_%H-%M-%S");
}

#[test]
fn path_is_directory_stamp_and_extension() {
    assert_eq!(recording_path("/a/b", "2024-09-10_15-06-32"), "/a/b/2024-09-10_15-06-32.wav");
    assert_eq!(recording_path("", ""), "/.wav");
}

#[test]
fn restart_drops_what_was_captured() {
    let mut recorder = recorder();
    recorder.on_input(&[1, 2, 3]);
    recorder.begin_grab().unwrap();
    let mono = config(8, 1);
    assert_eq!(
        recorder.start_recording(Some(mono)),
        Ok(StreamRequest { device_index: 0, format: mono.format, restart_monitoring: false })
    );
    assert!(!recorder.is_grabbing());
    assert_eq!(recorder.config(), mono.format);
    assert_eq!(recorder.buffer_size(), 4);
    assert_eq!(recorder.get_samples_for_plot(), Vec::<u32>::new());
}

#[test]
fn restart_that_cannot_be_made_changes_nothing() {
    let mut recorder = recorder();
    recorder.on_input(&[1, 2, 3]);
    assert_eq!(recorder.start_recording(None), Err(RecorderError::ConfigError));
    let integer = NativeConfig { is_float32: false, ..stereo() };
    assert_eq!(recorder.start_recording(Some(integer)), Err(RecorderError::UnsupportedFormat));
    assert_eq!(recorder.get_samples_for_plot(), vec![1, 2, 3]);
    assert_eq!(recorder.config(), tiny().format);
}

#[test]
fn resize_replaces_the_window() {
    let mut recorder = recorder();
    recorder.on_input(&[1, 2, 3]);
    assert_eq!(recorder.update_buffer_size(2), Ok(()));
    assert_eq!(recorder.buffer_size(), 2);
    assert_eq!(recorder.get_samples_for_plot(), Vec::<u32>::new());
    recorder.on_input(&[4, 5, 6]);
    assert_eq!(recorder.get_samples_for_plot(), vec![5, 6]);
    assert_eq!(
        recorder.update_buffer_size(0),
        Err(RecorderError::Buffer(BufferError::ZeroCapacity))
    );
    assert_eq!(recorder.buffer_size(), 2);
    assert_eq!(recorder.get_samples_for_plot(), vec![5, 6]);
}

#[test]
fn monitoring_relays_input_only_while_on() {
    let mut recorder = recorder();
    recorder.on_input(&[1, 101]);
    let same = tiny();
    assert_eq!(
        recorder.start_monitoring(Some(same)),
        Ok(MonitorRequest {
            device_index: 0,
            format: same.format,
            buffer_frames: 2048,
            conversion: None,
        })
    );
    assert!(recorder.is_monitoring());
    recorder.on_input(&[2, 102, 3, 103]);
    match recorder.begin_output_block(None) {
        BlockPlan::PassThrough { block } => assert_eq!(block, vec![vec![2, 3], vec![102, 103]]),
        BlockPlan::Convert { .. } => panic!("no converter is active"),
    }
    recorder.on_input(&[4, 104]);
    recorder.stop_monitoring();
    assert!(!recorder.is_monitoring());
    recorder.on_input(&[5, 105]);
    match recorder.begin_output_block(None) {
        BlockPlan::PassThrough { block } => {
            assert_eq!(block, vec![Vec::<u32>::new(), Vec::<u32>::new()])
        }
        BlockPlan::Convert { .. } => panic!("no converter is active"),
    }
    assert_eq!(recorder.get_samples_for_plot(), vec![4, 104, 5, 105]);
}

#[test]
fn monitoring_at_another_rate_asks_for_a_converter() {
    let mut recorder = Recorder::new(1, Some(1), Some(stereo()), 1, None).unwrap();
    let out = config(48000, 2);
    let request = recorder.start_monitoring(Some(out)).unwrap();
    assert_eq!(request.conversion, conversion_settings(44100, 48000, 2));
    assert!(request.conversion.is_some());
    assert_eq!(request.format, out.format);
}

#[test]
fn monitoring_that_cannot_start_changes_nothing() {
    let mut none = Recorder::new(1, Some(1), Some(tiny()), 0, None).unwrap();
    assert_eq!(none.start_monitoring(Some(tiny())), Err(RecorderError::NoOutputDevices));
    let mut recorder = recorder();
    assert_eq!(recorder.start_monitoring(None), Err(RecorderError::ConfigError));
    let integer = NativeConfig { is_float32: false, ..tiny() };
    assert_eq!(recorder.start_monitoring(Some(integer)), Err(RecorderError::UnsupportedFormat));
    assert!(!recorder.is_monitoring());
}

#[test]
fn input_device_switch_restarts_capture() {
    let mut recorder = recorder();
    recorder.on_input(&[1, 2]);
    assert_eq!(recorder.switch_input_device(0, Some(stereo())), Ok(None));
    assert_eq!(recorder.get_samples_for_plot(), vec![1, 2]);
    assert_eq!(recorder.switch_input_device(2, Some(stereo())), Err(RecorderError::NoSuchDevice));
    assert_eq!(recorder.switch_input_device(1, None), Err(RecorderError::ConfigError));
    assert_eq!(recorder.current_input_device_index(), 0);
    assert_eq!(recorder.get_samples_for_plot(), vec![1, 2]);
    assert_eq!(
        recorder.switch_input_device(1, Some(stereo())),
        Ok(Some(StreamRequest {
            device_index: 1,
            format: stereo().format,
            restart_monitoring: false,
        }))
    );
    assert_eq!(recorder.current_input_device_index(), 1);
    assert_eq!(recorder.config(), stereo().format);
    assert_eq!(recorder.get_samples_for_plot(), Vec::<u32>::new());
}

#[test]
fn output_device_switch_restarts_monitoring_only_while_on() {
    let mut recorder = recorder();
    assert_eq!(recorder.switch_output_device(1, None), Ok(None));
    assert_eq!(recorder.current_output_device_index(), 1);
    assert_eq!(recorder.switch_output_device(2, Some(tiny())), Err(RecorderError::NoSuchDevice));
    recorder.start_monitoring(Some(tiny())).unwrap();
    assert_eq!(recorder.switch_output_device(0, None), Err(RecorderError::ConfigError));
    assert_eq!(recorder.current_output_device_index(), 1);
    let request = recorder.switch_output_device(0, Some(stereo())).unwrap().unwrap();
    assert_eq!(request.device_index, 0);
    assert_eq!(request.conversion, conversion_settings(4, 44100, 2));
    assert_eq!(recorder.current_output_device_index(), 0);
}

#[test]
fn plot_shows_every_tenth_sample() {
    let samples: Vec<u32> = (100..125).collect();
    assert_eq!(plot_points(&samples), vec![(0, 100), (10, 110), (20, 120)]);
    assert_eq!(plot_points(&samples[..20]), vec![(0, 100), (10, 110)]);
    assert_eq!(plot_points(&samples[..21]), vec![(0, 100), (10, 110), (20, 120)]);
    assert_eq!(plot_points(&samples[..1]), vec![(0, 100)]);
    assert_eq!(plot_points(&[]), Vec::<(usize, u32)>::new());
}

#[test]
fn window_in_seconds_restarts_capture() {
    let mut recorder = recorder();
    recorder.on_input(&[1, 2, 3]);
    recorder.begin_grab().unwrap();
    let mono = config(8, 1);
    assert_eq!(
        recorder.resize_window(3, Some(mono)),
        Ok(StreamRequest { device_index: 0, format: mono.format, restart_monitoring: false })
    );
    assert_eq!(recorder.buffer_size(), 24);
    assert_eq!(recorder.config(), mono.format);
    assert!(!recorder.is_grabbing());
    assert_eq!(recorder.get_samples_for_plot(), Vec::<u32>::new());
}

#[test]
fn window_that_cannot_be_set_changes_nothing() {
    let mut recorder = recorder();
    recorder.on_input(&[1, 2, 3]);
    assert_eq!(recorder.resize_window(3, None), Err(RecorderError::ConfigError));
    let integer = NativeConfig { is_float32: false, ..tiny() };
    assert_eq!(recorder.resize_window(3, Some(integer)), Err(RecorderError::UnsupportedFormat));
    assert_eq!(
        recorder.resize_window(0, Some(tiny())),
        Err(RecorderError::Buffer(BufferError::ZeroCapacity))
    );
    assert_eq!(
        recorder.resize_window(usize::MAX, Some(tiny())),
        Err(RecorderError::WindowTooLarge)
    );
    assert_eq!(recorder.buffer_size(), 4);
    assert_eq!(recorder.get_samples_for_plot(), vec![1, 2, 3]);
}

#[test]
fn frames_of_a_recording_without_channels() {
    let silent = config(4, 0);
    let mut recorder =
        Recorder::new(1, Some(1), Some(silent), 0, Some(String::from("/tmp"))).unwrap();
    recorder.on_input(&[1, 2, 3]);
    recorder.begin_grab().unwrap();
    let save = recorder.grab_recording(0).unwrap();
    assert_eq!(save.frames, 0);
    assert_eq!(save.samples, vec![1, 2, 3]);
}

#[test]
fn wav_round_trip_keeps_format_and_samples() {
    let mut recorder = recorder();
    let played: Vec<f32> = vec![0.0, -0.5, 0.25, 1.0, -1.0, 0.125];
    let bits: Vec<u32> = played.iter().map(|v| v.to_bits()).collect();
    recorder.on_input(&bits[..4]);
    recorder.begin_grab().unwrap();
    recorder.on_input(&bits[4..]);
    let save = recorder.grab_recording(0).unwrap();

    let spec = hound::WavSpec {
        channels: save.format.channels,
        sample_rate: save.format.sample_rate,
        bits_per_sample: save.format.bits_per_sample,
        sample_format: if save.format.float {
            hound::SampleFormat::Float
        } else {
            hound::SampleFormat::Int
        },
    };
    let mut file: Vec<u8> = Vec::new();
    {
        let mut writer = hound::WavWriter::new(std::io::Cursor::new(&mut file), spec).unwrap();
        for sample in &save.samples {
            writer.write_sample(f32::from_bits(*sample)).unwrap();
        }
        writer.finalize().unwrap();
    }

    let mut reader = hound::WavReader::new(std::io::Cursor::new(&file)).unwrap();
    assert_eq!(reader.spec().channels, 2);
    assert_eq!(reader.spec().sample_rate, 4);
    assert_eq!(reader.spec().bits_per_sample, 32);
    assert_eq!(reader.spec().sample_format, hound::SampleFormat::Float);
    let read: Vec<f32> = reader.samples::<f32>().map(|sample| sample.unwrap()).collect();
    assert_eq!(read, played);
    assert_eq!(reader.duration() as usize, save.frames);
}

#[test]
fn restart_while_monitoring_asks_for_monitoring_again() {
    let mut recorder = recorder();
    recorder.start_monitoring(Some(tiny())).unwrap();
    recorder.on_input(&[1, 101]);
    let request = recorder.start_recording(Some(stereo())).unwrap();
    assert!(request.restart_monitoring);
    assert!(recorder.is_monitoring());
    match recorder.begin_output_block(None) {
        BlockPlan::PassThrough { block } => {
            assert_eq!(block, vec![Vec::<u32>::new(), Vec::<u32>::new()])
        }
        BlockPlan::Convert { .. } => panic!("no converter is active"),
    }
    let again = recorder.start_monitoring(Some(tiny())).unwrap();
    assert_eq!(again.conversion, conversion_settings(44100, 4, 2));
    recorder.stop_monitoring();
    let request = recorder.switch_input_device(1, Some(tiny())).unwrap().unwrap();
    assert!(!request.restart_monitoring);
}
