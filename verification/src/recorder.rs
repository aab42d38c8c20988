//! The recorder: what is captured, frozen, saved and monitored, and in what
//! order. It owns the buffers and decides; opening and closing the hardware
//! streams and writing files is left to the caller, who is told what to do
//! by the value each operation returns.

use vstd::prelude::*;
use crate::capture_buffer::{CaptureBuffer, CaptureState, Mode};
use crate::converter::{conversion_settings, ConversionSettings};
use crate::error::BufferError;
use crate::monitor::{BlockPlan, Monitor, MonitorState};
use crate::naming::{file_safe_timestamp, recording_path, recording_path_text, stamp_text};
use crate::sample::Sample;

verus! {

/// The seconds of input that each monitoring queue can hold.
pub const MONITOR_SECONDS: u64 = 4;

/// The number of frames asked of the output device per callback.
pub const OUTPUT_BUFFER_FRAMES: u32 = 2048;

/// The bits of a sample in a recording file.
pub const BITS_PER_SAMPLE: u16 = 32;

/// The rate and channel count of a stream.
#[derive(Clone, Copy, Debug, PartialEq, Eq, Structural)]
pub struct StreamFormat {
    pub sample_rate: u32,
    pub channels: u16,
}

/// What a device reports as its native configuration.
#[derive(Clone, Copy, Debug, PartialEq, Eq, Structural)]
pub struct NativeConfig {
    pub format: StreamFormat,
    /// Whether the device's samples are 32-bit floating-point numbers.
    pub is_float32: bool,
}

/// Why the recorder declined an operation.
#[derive(Clone, Copy, Debug, PartialEq, Eq, Structural)]
pub enum RecorderError {
    /// The devices could not be listed.
    DevicesError,
    /// A device's native configuration could not be read.
    ConfigError,
    /// There is no input device.
    NoInputDevices,
    /// There is no directory to save recordings to.
    NoHomeDirectory,
    /// There is no output device.
    NoOutputDevices,
    /// There is no device of that index.
    NoSuchDevice,
    /// The device's samples are not 32-bit floating-point numbers.
    UnsupportedFormat,
    /// The rolling window would hold more samples than can be addressed.
    WindowTooLarge,
    /// The time given cannot be written as a date.
    InvalidTime,
    /// The capture buffer declined.
    Buffer(BufferError),
}

/// The input stream that the caller is to open.
#[derive(Clone, Copy, Debug, PartialEq, Eq, Structural)]
pub struct StreamRequest {
    pub device_index: usize,
    pub format: StreamFormat,
    /// Whether monitoring is on. Its output stream and converter were made
    /// for the input format as it was, so the caller is to start monitoring
    /// again once the input stream is open.
    pub restart_monitoring: bool,
}

/// The output stream that the caller is to open, and the converter to put
/// before it, if any.
#[derive(Clone, Copy, Debug, PartialEq, Eq, Structural)]
pub struct MonitorRequest {
    pub device_index: usize,
    pub format: StreamFormat,
    pub buffer_frames: u32,
    pub conversion: Option<ConversionSettings>,
}

/// The header of a recording file.
#[derive(Clone, Copy, Debug, PartialEq, Eq, Structural)]
pub struct WavFormat {
    pub channels: u16,
    pub sample_rate: u32,
    pub bits_per_sample: u16,
    pub float: bool,
}

/// A recording that the caller is to write to a file. It owns the samples,
/// so a write that failed can be tried again.
pub struct SaveRequest {
    pub path: String,
    pub format: WavFormat,
    /// The number of whole frames in `samples`.
    pub frames: usize,
    pub samples: Vec<Sample>,
}

/// The capacity of each monitoring queue at a sample rate: the samples of
/// `MONITOR_SECONDS` seconds, as far as they can be counted.
pub open spec fn spec_queue_capacity(sample_rate: u32) -> usize {
    if sample_rate * MONITOR_SECONDS <= usize::MAX {
        (sample_rate * MONITOR_SECONDS) as usize
    } else {
        usize::MAX
    }
}

/// The capacity of each monitoring queue at a sample rate.
pub fn queue_capacity(sample_rate: u32) -> (capacity: usize)
    ensures
        capacity == spec_queue_capacity(sample_rate),
{
    let wide: u64 = sample_rate as u64 * MONITOR_SECONDS;
    if wide > usize::MAX as u64 {
        usize::MAX
    } else {
        wide as usize
    }
}

/// The samples in a window of `seconds` seconds at `sample_rate`; `None`
/// where they are more than can be addressed.
pub fn window_samples(seconds: usize, sample_rate: u32) -> (samples: Option<usize>)
    ensures
        samples == if seconds * sample_rate <= usize::MAX {
            Some((seconds * sample_rate) as usize)
        } else {
            None::<usize>
        },
{
    assert(seconds * sample_rate <= 0xffff_ffff_ffff_ffff * 0xffff_ffff) by (nonlinear_arith)
        requires
            seconds <= 0xffff_ffff_ffff_ffff,
            sample_rate <= 0xffff_ffff,
    ;
    let wide: u128 = seconds as u128 * sample_rate as u128;
    if wide > usize::MAX as u128 {
        None
    } else {
        Some(wide as usize)
    }
}

/// The number of whole frames in `samples` interleaved samples.
pub open spec fn whole_frames(samples: nat, channels: u16) -> nat {
    if channels == 0 {
        0
    } else {
        samples / (channels as nat)
    }
}

/// Why an input stream cannot be started from what the device reports.
pub open spec fn stream_fault(native: Option<NativeConfig>) -> Option<RecorderError> {
    match native {
        None => Some(RecorderError::ConfigError),
        Some(config) => if config.is_float32 {
            None
        } else {
            Some(RecorderError::UnsupportedFormat)
        },
    }
}

/// What a recorder holds, as mathematics.
pub struct RecorderState {
    /// Whether a grab is under way.
    pub grabbing: bool,
    pub capture: CaptureState,
    /// The format of the input stream.
    pub format: StreamFormat,
    /// The size of the rolling window, in samples.
    pub buffer_size: usize,
    pub save_path: Option<Seq<char>>,
    pub input_devices: usize,
    pub input_index: usize,
    pub monitoring: bool,
    pub output_devices: usize,
    pub output_index: usize,
    pub monitor: MonitorState,
}

impl RecorderState {
    /// The state in which capture (re)starts with `format`: a fresh rolling
    /// buffer, fresh monitoring queues, and no grab under way.
    pub open spec fn restarted(self, format: StreamFormat) -> RecorderState {
        RecorderState {
            grabbing: false,
            capture: CaptureState::fresh(self.buffer_size as nat),
            format,
            monitor: MonitorState::fresh(
                format.channels as nat,
                spec_queue_capacity(format.sample_rate) as nat,
            ),
            ..self
        }
    }

    /// The input stream to open when capture (re)starts with `format`.
    pub open spec fn stream_request(self, format: StreamFormat) -> StreamRequest {
        StreamRequest {
            device_index: self.input_index,
            format,
            restart_monitoring: self.monitoring,
        }
    }

    /// The state after the window was set to `new_size` samples.
    pub open spec fn resized(self, new_size: usize) -> RecorderState {
        RecorderState {
            grabbing: false,
            capture: CaptureState::fresh(new_size as nat),
            buffer_size: new_size,
            ..self
        }
    }

    /// The state after a grab began.
    pub open spec fn grab_begun(self) -> RecorderState {
        RecorderState { grabbing: true, capture: self.capture.begin_freeze(), ..self }
    }

    /// The state after a grab was handed out.
    pub open spec fn grab_ended(self) -> RecorderState {
        RecorderState {
            grabbing: false,
            capture: CaptureState::fresh(self.buffer_size as nat),
            ..self
        }
    }

    /// The state after input arrived.
    pub open spec fn fed(self, data: Seq<Sample>) -> RecorderState {
        RecorderState {
            capture: self.capture.add_samples(data),
            monitor: if self.monitoring {
                self.monitor.distribute(data)
            } else {
                self.monitor
            },
            ..self
        }
    }

    /// The state in which monitoring (re)starts.
    pub open spec fn monitoring_started(self) -> RecorderState {
        RecorderState {
            monitoring: true,
            monitor: MonitorState::fresh(
                self.format.channels as nat,
                spec_queue_capacity(self.format.sample_rate) as nat,
            ),
            ..self
        }
    }

    /// The state after monitoring stopped.
    pub open spec fn monitoring_stopped(self) -> RecorderState {
        RecorderState { monitoring: false, monitor: self.monitor.cleared(), ..self }
    }

    /// Why an input stream cannot be switched to device `index`.
    pub open spec fn input_switch_fault(self, index: usize, native: Option<NativeConfig>) -> Option<
        RecorderError,
    > {
        if index >= self.input_devices {
            Some(RecorderError::NoSuchDevice)
        } else {
            stream_fault(native)
        }
    }

    /// Why monitoring cannot start.
    pub open spec fn monitor_fault(self, native: Option<NativeConfig>) -> Option<RecorderError> {
        if self.output_devices == 0 {
            Some(RecorderError::NoOutputDevices)
        } else {
            stream_fault(native)
        }
    }

    /// The output stream to open when monitoring starts on a device of
    /// `format`.
    pub open spec fn monitor_request(self, format: StreamFormat) -> MonitorRequest {
        MonitorRequest {
            device_index: self.output_index,
            format,
            buffer_frames: OUTPUT_BUFFER_FRAMES,
            conversion: if self.format.sample_rate != format.sample_rate {
                Some(
                    crate::converter::settings_for(
                        self.format.sample_rate,
                        format.sample_rate,
                        self.format.channels as usize,
                    ),
                )
            } else {
                None
            },
        }
    }

    /// Why a grab cannot be handed out at the moment `now_secs`.
    pub open spec fn grab_fault(self, now_secs: i64) -> Option<RecorderError> {
        if !self.grabbing {
            Some(RecorderError::Buffer(BufferError::NotFrozen))
        } else if self.save_path is None {
            Some(RecorderError::NoHomeDirectory)
        } else if stamp_text(now_secs) is None {
            Some(RecorderError::InvalidTime)
        } else {
            None
        }
    }

    /// The header of a recording made now.
    pub open spec fn wav_format(self) -> WavFormat {
        WavFormat {
            channels: self.format.channels,
            sample_rate: self.format.sample_rate,
            bits_per_sample: BITS_PER_SAMPLE,
            float: true,
        }
    }
}

/// The outcome of sizing a window of `seconds` seconds for a device that
/// reports `native`: the first fault found, or the window's size in samples.
pub open spec fn resize_outcome(seconds: usize, native: Option<NativeConfig>) -> Result<
    usize,
    RecorderError,
> {
    if stream_fault(native) is Some {
        Err(stream_fault(native)->0)
    } else if seconds * native->0.format.sample_rate > usize::MAX {
        Err(RecorderError::WindowTooLarge)
    } else if seconds * native->0.format.sample_rate == 0 {
        Err(RecorderError::Buffer(BufferError::ZeroCapacity))
    } else {
        Ok((seconds * native->0.format.sample_rate) as usize)
    }
}

/// The outcome of setting up a recorder for a window of `seconds` seconds:
/// the first fault found, in the order in which the devices are asked, or
/// the window's size in samples.
pub open spec fn setup_outcome(
    seconds: usize,
    input_devices: Option<usize>,
    native: Option<NativeConfig>,
) -> Result<usize, RecorderError> {
    if input_devices is None {
        Err(RecorderError::DevicesError)
    } else if input_devices->0 == 0 {
        Err(RecorderError::NoInputDevices)
    } else {
        resize_outcome(seconds, native)
    }
}

/// The recorder's state behind the control surface and the two audio
/// callbacks.
pub struct Recorder {
    is_grabbing: bool,
    sample_buffer: CaptureBuffer,
    config: StreamFormat,
    buffer_size: usize,
    save_path: Option<String>,
    input_devices: usize,
    current_input_device_index: usize,
    is_monitoring: bool,
    output_devices: usize,
    current_output_device_index: usize,
    monitor: Monitor,
}

impl View for Recorder {
    type V = RecorderState;

    closed spec fn view(&self) -> RecorderState {
        RecorderState {
            grabbing: self.is_grabbing,
            capture: self.sample_buffer@,
            format: self.config,
            buffer_size: self.buffer_size,
            save_path: match self.save_path {
                Some(path) => Some(path@),
                None => None,
            },
            input_devices: self.input_devices,
            input_index: self.current_input_device_index,
            monitoring: self.is_monitoring,
            output_devices: self.output_devices,
            output_index: self.current_output_device_index,
            monitor: self.monitor@,
        }
    }
}

impl Recorder {
    /// The buffers are well-formed, the window has the size that is set, a
    /// grab is under way exactly while the buffer is frozen, the selected
    /// devices exist, and there is a monitoring queue for each input channel.
    pub closed spec fn wf(&self) -> bool {
        &&& self.sample_buffer.wf()
        &&& self.monitor.wf()
        &&& self.buffer_size > 0
        &&& self.sample_buffer@.capacity == self.buffer_size
        &&& self.is_grabbing <==> self.sample_buffer@.mode == Mode::Frozen
        &&& self.current_input_device_index < self.input_devices
        &&& self.output_devices > 0 ==> self.current_output_device_index < self.output_devices
        &&& self.monitor@.queued.len() == self.config.channels
        &&& self.monitor@.capacity == spec_queue_capacity(self.config.sample_rate)
    }

    /// What `wf` says, over the state.
    pub proof fn lemma_wf_valid(&self)
        requires
            self.wf(),
        ensures
            self@.capture.valid(),
            self@.monitor.valid(),
            self@.buffer_size > 0,
            self@.capture.capacity == self@.buffer_size,
            self@.grabbing <==> self@.capture.mode == Mode::Frozen,
            self@.input_index < self@.input_devices,
            self@.monitor.queued.len() == self@.format.channels,
    {
        self.sample_buffer.lemma_wf_valid();
        self.monitor.lemma_wf_valid();
    }

    /// Sets up a recorder with a rolling window of `initial_buffer_size_s`
    /// seconds on the first input device. `input_devices` is the number of
    /// input devices, or `None` where they could not be listed; `native` is
    /// what the first of them reports, or `None` where that could not be
    /// read. Capture starts at once: the caller opens the input stream on
    /// device 0 with the recorder's format.
    pub fn new(
        initial_buffer_size_s: usize,
        input_devices: Option<usize>,
        native: Option<NativeConfig>,
        output_devices: usize,
        save_path: Option<String>,
    ) -> (made: Result<Recorder, RecorderError>)
        ensures
            match made {
                Ok(recorder) => {
                    &&& recorder.wf()
                    &&& setup_outcome(initial_buffer_size_s, input_devices, native) == Ok::<
                        usize,
                        RecorderError,
                    >(recorder@.buffer_size)
                    &&& recorder@ == (RecorderState {
                        grabbing: false,
                        capture: CaptureState::fresh(recorder@.buffer_size as nat),
                        format: native->0.format,
                        buffer_size: recorder@.buffer_size,
                        save_path: match save_path {
                            Some(path) => Some(path@),
                            None => None,
                        },
                        input_devices: input_devices->0,
                        input_index: 0,
                        monitoring: false,
                        output_devices,
                        output_index: 0,
                        monitor: MonitorState::fresh(
                            native->0.format.channels as nat,
                            spec_queue_capacity(native->0.format.sample_rate) as nat,
                        ),
                    })
                },
                Err(fault) => setup_outcome(initial_buffer_size_s, input_devices, native) == Err::<
                    usize,
                    RecorderError,
                >(fault),
            },
    {
        let count = match input_devices {
            Some(count) => count,
            None => {
                return Err(RecorderError::DevicesError);
            },
        };
        if count == 0 {
            return Err(RecorderError::NoInputDevices);
        }
        let config = match native {
            Some(config) => config,
            None => {
                return Err(RecorderError::ConfigError);
            },
        };
        if !config.is_float32 {
            return Err(RecorderError::UnsupportedFormat);
        }
        let buffer_size = match window_samples(initial_buffer_size_s, config.format.sample_rate) {
            Some(size) => size,
            None => {
                return Err(RecorderError::WindowTooLarge);
            },
        };
        if buffer_size == 0 {
            return Err(RecorderError::Buffer(BufferError::ZeroCapacity));
        }
        let sample_buffer = CaptureBuffer::rolling(buffer_size);
        let monitor = Monitor::new(
            config.format.channels as usize,
            queue_capacity(config.format.sample_rate),
        );
        Ok(
            Recorder {
                is_grabbing: false,
                sample_buffer,
                config: config.format,
                buffer_size,
                save_path,
                input_devices: count,
                current_input_device_index: 0,
                is_monitoring: false,
                output_devices,
                current_output_device_index: 0,
                monitor,
            },
        )
    }

    /// Whether a grab is under way.
    pub fn is_grabbing(&self) -> (grabbing: bool)
        ensures
            grabbing == self@.grabbing,
    {
        self.is_grabbing
    }

    /// Whether input is relayed to the output side.
    pub fn is_monitoring(&self) -> (monitoring: bool)
        ensures
            monitoring == self@.monitoring,
    {
        self.is_monitoring
    }

    /// The format of the input stream.
    pub fn config(&self) -> (format: StreamFormat)
        ensures
            format == self@.format,
    {
        self.config
    }

    /// The size of the rolling window, in samples.
    pub fn buffer_size(&self) -> (size: usize)
        ensures
            size == self@.buffer_size,
    {
        self.buffer_size
    }

    /// The index of the input device in use.
    pub fn current_input_device_index(&self) -> (index: usize)
        ensures
            index == self@.input_index,
    {
        self.current_input_device_index
    }

    /// The index of the output device in use.
    pub fn current_output_device_index(&self) -> (index: usize)
        ensures
            index == self@.output_index,
    {
        self.current_output_device_index
    }

    /// The directory that recordings are saved to, if one is known.
    pub fn save_path(&self) -> (path: Option<String>)
        ensures
            match path {
                Some(text) => self@.save_path == Some(text@),
                None => self@.save_path is None,
            },
    {
        match &self.save_path {
            Some(text) => Some(text.clone()),
            None => None,
        }
    }

    /// Sets the directory that recordings are saved to.
    pub fn set_save_path(&mut self, path: String)
        requires
            old(self).wf(),
        ensures
            final(self).wf(),
            final(self)@ == (RecorderState { save_path: Some(path@), ..old(self)@ }),
    {
        self.save_path = Some(path);
    }

    /// (Re)starts capture on the device in use, which reports `native`. On
    /// success the window and the monitoring queues are fresh, sized for
    /// the device's format, no grab is under way, and the caller is to
    /// replace the input stream by the one returned, and to start
    /// monitoring again where the request says so. Where the device's
    /// configuration could not be read (`None`) or its samples are not
    /// 32-bit floats, nothing changes and no stream is to be opened.
    pub fn start_recording(&mut self, native: Option<NativeConfig>) -> (request: Result<
        StreamRequest,
        RecorderError,
    >)
        requires
            old(self).wf(),
        ensures
            final(self).wf(),
            match request {
                Ok(stream) => {
                    &&& stream_fault(native) is None
                    &&& final(self)@ == old(self)@.restarted(native->0.format)
                    &&& stream == old(self)@.stream_request(native->0.format)
                },
                Err(fault) => stream_fault(native) == Some(fault) && final(self)@ == old(self)@,
            },
    {
        let config = match native {
            Some(config) => config,
            None => {
                return Err(RecorderError::ConfigError);
            },
        };
        if !config.is_float32 {
            return Err(RecorderError::UnsupportedFormat);
        }
        self.config = config.format;
        self.reset_buffer();
        self.reset_monitoring_buffers();
        Ok(
            StreamRequest {
                device_index: self.current_input_device_index,
                format: config.format,
                restart_monitoring: self.is_monitoring,
            },
        )
    }

    /// Replaces the capture buffer by a fresh one of the size that is set.
    /// A grab under way is dropped.
    fn reset_buffer(&mut self)
        requires
            old(self).sample_buffer.wf(),
            old(self).buffer_size > 0,
        ensures
            final(self).sample_buffer.wf(),
            final(self)@ == (RecorderState {
                grabbing: false,
                capture: CaptureState::fresh(old(self)@.buffer_size as nat),
                ..old(self)@
            }),
            final(self).monitor == old(self).monitor,
            final(self).config == old(self).config,
    {
        self.sample_buffer = CaptureBuffer::rolling(self.buffer_size);
        self.is_grabbing = false;
    }

    /// Replaces the monitoring queues and working buffers by fresh ones for
    /// the input format.
    fn reset_monitoring_buffers(&mut self)
        ensures
            final(self).monitor.wf(),
            final(self)@ == (RecorderState {
                monitor: MonitorState::fresh(
                    old(self)@.format.channels as nat,
                    spec_queue_capacity(old(self)@.format.sample_rate) as nat,
                ),
                ..old(self)@
            }),
            final(self).sample_buffer == old(self).sample_buffer,
    {
        self.monitor = Monitor::new(
            self.config.channels as usize,
            queue_capacity(self.config.sample_rate),
        );
    }

    /// Sets the rolling window to `new_size` samples. What was captured is
    /// dropped, since a window of another size is another store; the caller
    /// restarts capture. A size of zero is refused and changes nothing.
    pub fn update_buffer_size(&mut self, new_size: usize) -> (done: Result<(), RecorderError>)
        requires
            old(self).wf(),
        ensures
            final(self).wf(),
            match done {
                Ok(_) => new_size > 0 && final(self)@ == old(self)@.resized(new_size),
                Err(fault) => {
                    &&& new_size == 0
                    &&& fault == RecorderError::Buffer(BufferError::ZeroCapacity)
                    &&& final(self)@ == old(self)@
                },
            },
    {
        if new_size == 0 {
            return Err(RecorderError::Buffer(BufferError::ZeroCapacity));
        }
        self.buffer_size = new_size;
        self.reset_buffer();
        Ok(())
    }

    /// Sets the rolling window to `seconds` seconds at the rate of the
    /// device in use, which reports `native`, and restarts capture as in
    /// `start_recording`. What was captured is dropped. Where the device
    /// cannot be started, or the window would be empty or hold more samples
    /// than can be addressed, nothing changes.
    pub fn resize_window(&mut self, seconds: usize, native: Option<NativeConfig>) -> (request:
        Result<StreamRequest, RecorderError>)
        requires
            old(self).wf(),
        ensures
            final(self).wf(),
            match request {
                Ok(stream) => {
                    &&& resize_outcome(seconds, native) is Ok
                    &&& final(self)@ == old(self)@.resized(
                        resize_outcome(seconds, native)->Ok_0,
                    ).restarted(native->0.format)
                    &&& stream == old(self)@.stream_request(native->0.format)
                },
                Err(fault) => {
                    &&& resize_outcome(seconds, native) == Err::<usize, RecorderError>(fault)
                    &&& final(self)@ == old(self)@
                },
            },
    {
        let config = match native {
            Some(config) => config,
            None => {
                return Err(RecorderError::ConfigError);
            },
        };
        if !config.is_float32 {
            return Err(RecorderError::UnsupportedFormat);
        }
        let new_size = match window_samples(seconds, config.format.sample_rate) {
            Some(size) => size,
            None => {
                return Err(RecorderError::WindowTooLarge);
            },
        };
        if new_size == 0 {
            return Err(RecorderError::Buffer(BufferError::ZeroCapacity));
        }
        self.buffer_size = new_size;
        self.config = config.format;
        self.reset_buffer();
        self.reset_monitoring_buffers();
        Ok(
            StreamRequest {
                device_index: self.current_input_device_index,
                format: config.format,
                restart_monitoring: self.is_monitoring,
            },
        )
    }

    /// Begins a grab: the window is frozen, and capture goes on behind it.
    /// While a grab is under way another one is refused and nothing changes.
    pub fn begin_grab(&mut self) -> (done: Result<(), RecorderError>)
        requires
            old(self).wf(),
        ensures
            final(self).wf(),
            match done {
                Ok(_) => !old(self)@.grabbing && final(self)@ == old(self)@.grab_begun(),
                Err(fault) => {
                    &&& old(self)@.grabbing
                    &&& fault == RecorderError::Buffer(BufferError::AlreadyFrozen)
                    &&& final(self)@ == old(self)@
                },
            },
    {
        match self.sample_buffer.begin_freeze() {
            Ok(_) => {
                self.is_grabbing = true;
                Ok(())
            },
            Err(fault) => Err(RecorderError::Buffer(fault)),
        }
    }

    /// Ends the grab at the moment `now_secs` (seconds since the start of
    /// 1970, UTC) and hands out the recording: everything from the frozen
    /// window on, with the header and the path of the file to write, named
    /// by the moment. The recorder goes on with a fresh rolling buffer; the
    /// caller stops the input stream, writes the file and restarts capture.
    /// Without a grab under way, without a directory to save to, or with a
    /// moment that is no date, nothing changes and nothing is handed out.
    pub fn grab_recording(&mut self, now_secs: i64) -> (request: Result<SaveRequest, RecorderError>)
        requires
            old(self).wf(),
        ensures
            final(self).wf(),
            match request {
                Ok(save) => {
                    &&& old(self)@.grab_fault(now_secs) is None
                    &&& final(self)@ == old(self)@.grab_ended()
                    &&& save.samples@ == old(self)@.capture.log
                    &&& save.path@ == recording_path_text(
                        old(self)@.save_path->0,
                        stamp_text(now_secs)->0,
                    )
                    &&& save.format == old(self)@.wav_format()
                    &&& save.frames == whole_frames(
                        old(self)@.capture.log.len(),
                        old(self)@.format.channels,
                    )
                },
                Err(fault) => old(self)@.grab_fault(now_secs) == Some(fault) && final(self)@ == old(
                    self,
                )@,
            },
    {
        if !self.is_grabbing {
            return Err(RecorderError::Buffer(BufferError::NotFrozen));
        }
        let path = match &self.save_path {
            Some(dir) => {
                match file_safe_timestamp(now_secs) {
                    Some(stamp) => recording_path(dir.as_str(), stamp.as_str()),
                    None => {
                        return Err(RecorderError::InvalidTime);
                    },
                }
            },
            None => {
                return Err(RecorderError::NoHomeDirectory);
            },
        };
        let samples = self.sample_buffer.take_log();
        let frames = if self.config.channels == 0 {
            0
        } else {
            samples.len() / (self.config.channels as usize)
        };
        let format = WavFormat {
            channels: self.config.channels,
            sample_rate: self.config.sample_rate,
            bits_per_sample: BITS_PER_SAMPLE,
            float: true,
        };
        self.reset_buffer();
        Ok(SaveRequest { path, format, frames, samples })
    }

    /// Takes what the input stream delivers: into the capture buffer always,
    /// and into the monitoring queues while monitoring is on.
    pub fn on_input(&mut self, data: &[Sample])
        requires
            old(self).wf(),
        ensures
            final(self).wf(),
            final(self)@ == old(self)@.fed(data@),
    {
        self.sample_buffer.add_samples(data);
        if self.is_monitoring {
            self.monitor.distribute(data);
        }
    }

    /// Starts monitoring on the output device in use, which reports
    /// `native`: the queues and working buffers are fresh, input is relayed
    /// from now on, and the caller is to open the output stream returned,
    /// behind a converter where the two rates differ. Without an output
    /// device, or where the device's configuration could not be read or its
    /// samples are not 32-bit floats, nothing changes.
    pub fn start_monitoring(&mut self, native: Option<NativeConfig>) -> (request: Result<
        MonitorRequest,
        RecorderError,
    >)
        requires
            old(self).wf(),
        ensures
            final(self).wf(),
            match request {
                Ok(stream) => {
                    &&& old(self)@.monitor_fault(native) is None
                    &&& final(self)@ == old(self)@.monitoring_started()
                    &&& stream == old(self)@.monitor_request(native->0.format)
                },
                Err(fault) => old(self)@.monitor_fault(native) == Some(fault) && final(self)@
                    == old(self)@,
            },
    {
        if self.output_devices == 0 {
            return Err(RecorderError::NoOutputDevices);
        }
        let config = match native {
            Some(config) => config,
            None => {
                return Err(RecorderError::ConfigError);
            },
        };
        if !config.is_float32 {
            return Err(RecorderError::UnsupportedFormat);
        }
        let conversion = conversion_settings(
            self.config.sample_rate,
            config.format.sample_rate,
            self.config.channels as usize,
        );
        self.reset_monitoring_buffers();
        self.is_monitoring = true;
        Ok(
            MonitorRequest {
                device_index: self.current_output_device_index,
                format: config.format,
                buffer_frames: OUTPUT_BUFFER_FRAMES,
                conversion,
            },
        )
    }

    /// Stops monitoring: input is no longer relayed and the queues are
    /// emptied. The caller drops the output stream.
    pub fn stop_monitoring(&mut self)
        requires
            old(self).wf(),
        ensures
            final(self).wf(),
            final(self)@ == old(self)@.monitoring_stopped(),
    {
        self.is_monitoring = false;
        self.monitor.clear_queues();
    }

    /// Takes the next block for the output stream; see `Monitor::begin_block`.
    pub fn begin_output_block(&mut self, required_chunk: Option<usize>) -> (plan: BlockPlan)
        requires
            old(self).wf(),
        ensures
            final(self).wf(),
            final(self)@ == (RecorderState {
                monitor: old(self)@.monitor.after_block(required_chunk),
                ..old(self)@
            }),
            plan is Convert <==> old(self)@.monitor.converts(required_chunk),
            plan.samples() == old(self)@.monitor.block(required_chunk),
    {
        self.monitor.begin_block(required_chunk)
    }

    /// Switches capture to input device `index`, which reports `native`.
    /// Choosing the device in use changes nothing and asks for no stream.
    /// Otherwise capture restarts on the new device as in
    /// `start_recording`; what was captured from the old one is dropped. A
    /// device that does not exist, or one that cannot be started, is refused
    /// and nothing changes.
    pub fn switch_input_device(&mut self, index: usize, native: Option<NativeConfig>) -> (request:
        Result<Option<StreamRequest>, RecorderError>)
        requires
            old(self).wf(),
        ensures
            final(self).wf(),
            match request {
                Ok(None) => index == old(self)@.input_index && final(self)@ == old(self)@,
                Ok(Some(stream)) => {
                    &&& index != old(self)@.input_index
                    &&& old(self)@.input_switch_fault(index, native) is None
                    &&& final(self)@ == (RecorderState {
                        input_index: index,
                        ..old(self)@.restarted(native->0.format)
                    })
                    &&& stream == (StreamRequest {
                        device_index: index,
                        format: native->0.format,
                        restart_monitoring: old(self)@.monitoring,
                    })
                },
                Err(fault) => {
                    &&& index != old(self)@.input_index
                    &&& old(self)@.input_switch_fault(index, native) == Some(fault)
                    &&& final(self)@ == old(self)@
                },
            },
    {
        if index == self.current_input_device_index {
            return Ok(None);
        }
        if index >= self.input_devices {
            return Err(RecorderError::NoSuchDevice);
        }
        let previous = self.current_input_device_index;
        self.current_input_device_index = index;
        match self.start_recording(native) {
            Ok(stream) => Ok(Some(stream)),
            Err(fault) => {
                self.current_input_device_index = previous;
                Err(fault)
            },
        }
    }

    /// Selects output device `index` for monitoring. While monitoring is
    /// on, it restarts on the new device, which reports `native`, as in
    /// `start_monitoring`. A device that does not exist, or one that
    /// monitoring cannot restart on, is refused and nothing changes.
    pub fn switch_output_device(&mut self, index: usize, native: Option<NativeConfig>) -> (request:
        Result<Option<MonitorRequest>, RecorderError>)
        requires
            old(self).wf(),
        ensures
            final(self).wf(),
            match request {
                Ok(None) => {
                    &&& index < old(self)@.output_devices
                    &&& !old(self)@.monitoring
                    &&& final(self)@ == (RecorderState { output_index: index, ..old(self)@ })
                },
                Ok(Some(stream)) => {
                    &&& index < old(self)@.output_devices
                    &&& old(self)@.monitoring
                    &&& stream_fault(native) is None
                    &&& final(self)@ == (RecorderState {
                        output_index: index,
                        ..old(self)@
                    }).monitoring_started()
                    &&& stream == (RecorderState {
                        output_index: index,
                        ..old(self)@
                    }).monitor_request(native->0.format)
                },
                Err(fault) => {
                    &&& final(self)@ == old(self)@
                    &&& if index >= old(self)@.output_devices {
                        fault == RecorderError::NoSuchDevice
                    } else {
                        old(self)@.monitoring && stream_fault(native) == Some(fault)
                    }
                },
            },
    {
        if index >= self.output_devices {
            return Err(RecorderError::NoSuchDevice);
        }
        let previous = self.current_output_device_index;
        self.current_output_device_index = index;
        if !self.is_monitoring {
            return Ok(None);
        }
        match self.start_monitoring(native) {
            Ok(stream) => Ok(Some(stream)),
            Err(fault) => {
                self.current_output_device_index = previous;
                Err(fault)
            },
        }
    }

    /// The samples to plot; see `CaptureBuffer::samples_for_plot`.
    pub fn get_samples_for_plot(&self) -> (out: Vec<Sample>)
        requires
            self.wf(),
        ensures
            out@ == self@.capture.samples_for_plot(),
    {
        self.sample_buffer.samples_for_plot()
    }
}

/// A grab hands out the window as it was when the grab began, followed by
/// all the input that arrived since, in order.
pub proof fn lemma_grab_hands_out_window_and_later_input(state: RecorderState, later: Seq<Sample>)
    requires
        state.capture.valid(),
        !state.grabbing,
        state.capture.mode == Mode::Rolling,
    ensures
        state.grab_begun().fed(later).capture.log == state.capture.window + later,
        state.grab_begun().fed(later).grabbing,
{
}

} // verus!
