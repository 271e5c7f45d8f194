use video_player::clock::TimeData;
use video_player::config::LoopState;
use video_player::fetcher::VideoState;
use video_player::audio::AudioStreamData;
use video_player::frame::PixelFormat;
use video_player::frame::VideoFrame;
use video_player::stream::Packet;
use video_player::stream::PacketData;
use video_player::stream::StreamData;
use video_player::stream::TimeBase;
use video_player::video::get_source_frame;
use video_player::video::play_video;
use video_player::video::scale_source_frame;
use video_player::video::schedule_frame;
use video_player::video::ScalerShape;
use video_player::video::VideoAction;
use video_player::video::VideoEvent;
use video_player::video::VideoPhase;
use video_player::video::VideoStreamData;

type Video = VideoStreamData<u32, &'static str>;
type Action = VideoAction<u32, &'static str>;

fn worker() -> Video {
    let tb = TimeBase::new(1, 1000).expect("a time base");
    VideoStreamData::new(StreamData::new(0, tb, 10_000))
}

fn packet(payload: u32) -> Packet<u32> {
    Packet { payload, size: 4 }
}

fn picture(pts: i64, data: &'static str) -> VideoFrame<&'static str> {
    VideoFrame { width: 640, height: 360, format: PixelFormat::Other(0), pts: Some(pts), data }
}

fn scaled(data: &'static str) -> VideoFrame<&'static str> {
    VideoFrame { width: 1280, height: 720, format: PixelFormat::Rgba, pts: None, data }
}

#[test]
fn empty_queue_makes_the_worker_sleep() {
    let mut video = worker();
    let clock = TimeData::new();
    let action = play_video(&mut video, VideoEvent::Tick, &clock, 0, Some((1280, 720)));
    assert_eq!(action, Action::Done(LoopState::Sleep(10)));
    assert_eq!(video.phase, VideoPhase::Idle);
}

#[test]
fn picture_goes_from_packet_to_surface() {
    let mut video = worker();
    let clock = TimeData::new();
    let surface = Some((1280, 720));
    video.stream.packet_queue.push_back(PacketData::Packet(packet(1), 0));

    let action = play_video(&mut video, VideoEvent::Tick, &clock, 490, surface);
    assert_eq!(action, Action::Decode(packet(1)));
    assert_eq!(video.phase, VideoPhase::Decoding { loop_count: 0 });
    assert_eq!(video.stream.packet_queue.len(), 0);

    let action = play_video(&mut video, VideoEvent::Decoded(picture(500, "raw")), &clock, 495, surface);
    assert_eq!(
        action,
        Action::Scale {
            frame: picture(500, "raw"),
            width: 1280,
            height: 720,
            format: PixelFormat::Rgba,
            rebuild: true,
        }
    );
    assert_eq!(video.width, Some(640));
    assert_eq!(video.height, Some(360));
    assert_eq!(video.phase, VideoPhase::Scaling { loop_count: 0, pts: Some(500) });
    assert_eq!(
        video.scaler,
        Some(ScalerShape {
            in_format: PixelFormat::Other(0),
            in_width: 640,
            in_height: 360,
            out_width: 1280,
            out_height: 720,
        })
    );

    // due in one millisecond: shown at once, with the source picture's timestamp
    let action = play_video(&mut video, VideoEvent::Scaled(scaled("rgba")), &clock, 499, surface);
    let mut stamped = scaled("rgba");
    stamped.pts = Some(500);
    assert_eq!(action, Action::Present(stamped));
    assert_eq!(video.phase, VideoPhase::Presenting);
    assert!(video.scaled_frame.is_none());

    let action = play_video(&mut video, VideoEvent::Presented(true), &clock, 500, surface);
    assert_eq!(action, Action::Done(LoopState::Running));
    assert_eq!(video.phase, VideoPhase::Idle);
}

#[test]
fn early_picture_is_kept_until_it_is_due() {
    let mut video = worker();
    let clock = TimeData::new();
    let surface = Some((1280, 720));
    video.stream.packet_queue.push_back(PacketData::Packet(packet(1), 1));
    play_video(&mut video, VideoEvent::Tick, &clock, 0, surface);
    play_video(&mut video, VideoEvent::Decoded(picture(500, "raw")), &clock, 0, surface);
    assert_eq!(video.phase, VideoPhase::Scaling { loop_count: 1, pts: Some(500) });

    // second loop of a 10 s stream: due at 10500
    let action = play_video(&mut video, VideoEvent::Scaled(scaled("rgba")), &clock, 10_000, surface);
    assert_eq!(action, Action::Done(LoopState::Sleep(500)));
    let mut stamped = scaled("rgba");
    stamped.pts = Some(500);
    assert_eq!(video.scaled_frame, Some((stamped, 1)));
    assert_eq!(video.phase, VideoPhase::Idle);

    // still three milliseconds early: the shortest sleep
    let action = play_video(&mut video, VideoEvent::Tick, &clock, 10_497, surface);
    assert_eq!(action, Action::Done(LoopState::Sleep(5)));
    assert!(video.scaled_frame.is_some());

    let action = play_video(&mut video, VideoEvent::Tick, &clock, 10_500, surface);
    let mut stamped = scaled("rgba");
    stamped.pts = Some(500);
    assert_eq!(action, Action::Present(stamped));
    assert!(video.scaled_frame.is_none());
}

#[test]
fn paused_clock_keeps_the_picture() {
    let mut video = worker();
    let mut clock = TimeData::new();
    clock.pause_at(100);
    let action = schedule_frame(&mut video, picture(0, "rgba"), 0, &clock, 5_000);
    assert_eq!(action, Action::Done(LoopState::Sleep(50)));
    assert_eq!(video.scaled_frame, Some((picture(0, "rgba"), 0)));

    clock.play_at(5_000);
    // the start moved to 4900: the picture is due now
    let action = play_video(&mut video, VideoEvent::Tick, &clock, 5_000, None);
    assert_eq!(action, Action::Present(picture(0, "rgba")));
}

#[test]
fn picture_is_due_relative_to_the_clock_start() {
    let mut video = worker();
    let mut clock = TimeData::new();
    clock.start_time = 2_000;
    assert_eq!(
        schedule_frame(&mut video, picture(500, "a"), 0, &clock, 2_100),
        Action::Done(LoopState::Sleep(400))
    );
    let mut video = worker();
    assert_eq!(
        schedule_frame(&mut video, picture(500, "a"), 0, &clock, 2_499),
        Action::Present(picture(500, "a"))
    );
}

#[test]
fn picture_without_timestamp_ends_the_loop() {
    let mut video = worker();
    let clock = TimeData::new();
    let action = schedule_frame(&mut video, scaled("rgba"), 0, &clock, 0);
    assert_eq!(action, Action::Done(LoopState::Exit));
    assert!(video.scaled_frame.is_none());
}

#[test]
fn surface_without_size_keeps_the_decoded_picture() {
    let mut video = worker();
    let clock = TimeData::new();
    video.stream.packet_queue.push_back(PacketData::Packet(packet(1), 2));
    play_video(&mut video, VideoEvent::Tick, &clock, 0, None);
    let action = play_video(&mut video, VideoEvent::Decoded(picture(0, "raw")), &clock, 0, None);
    assert_eq!(action, Action::Done(LoopState::Sleep(50)));
    assert_eq!(video.source_frame, Some((picture(0, "raw"), 2)));
    assert_eq!((video.width, video.height), (Some(640), Some(360)));
    assert_eq!(video.scaler, None);

    let action = play_video(&mut video, VideoEvent::Tick, &clock, 0, Some((100, 50)));
    assert_eq!(
        action,
        Action::Scale {
            frame: picture(0, "raw"),
            width: 100,
            height: 50,
            format: PixelFormat::Rgba,
            rebuild: true,
        }
    );
    assert!(video.source_frame.is_none());
    assert_eq!(video.phase, VideoPhase::Scaling { loop_count: 2, pts: Some(0) });
}

#[test]
fn scaler_is_rebuilt_only_when_a_shape_changes() {
    let mut video = worker();
    let rebuilds = |action: Action| match action {
        VideoAction::Scale { rebuild, .. } => rebuild,
        other => panic!("no scaling asked for: {:?}", other),
    };
    assert!(rebuilds(scale_source_frame(&mut video, picture(0, "a"), 0, Some((100, 50)))));
    assert!(!rebuilds(scale_source_frame(&mut video, picture(40, "b"), 0, Some((100, 50)))));
    assert!(rebuilds(scale_source_frame(&mut video, picture(80, "c"), 0, Some((100, 51)))));
    assert!(rebuilds(scale_source_frame(&mut video, picture(80, "c"), 0, Some((101, 51)))));
    assert!(!rebuilds(scale_source_frame(&mut video, picture(80, "c"), 0, Some((101, 51)))));
    let mut wider = picture(120, "d");
    wider.width = 641;
    assert!(rebuilds(scale_source_frame(&mut video, wider, 0, Some((101, 51)))));
    let mut taller = picture(120, "d");
    taller.width = 641;
    taller.height = 361;
    assert!(rebuilds(scale_source_frame(&mut video, taller, 0, Some((101, 51)))));
    let mut other = picture(120, "d");
    other.width = 641;
    other.height = 361;
    other.format = PixelFormat::Other(3);
    assert!(rebuilds(scale_source_frame(&mut video, other, 0, Some((101, 51)))));
}

#[test]
fn first_picture_sets_the_stream_size() {
    let mut video = worker();
    scale_source_frame(&mut video, picture(0, "a"), 0, None);
    let mut bigger = picture(40, "b");
    bigger.width = 1920;
    bigger.height = 1080;
    scale_source_frame(&mut video, bigger, 0, None);
    assert_eq!((video.width, video.height), (Some(640), Some(360)));
}

#[test]
fn flush_marker_reaches_the_decoder_before_later_packets() {
    let mut video = worker();
    let clock = TimeData::new();
    video.stream.packet_queue.push_back(PacketData::Flush);
    video.stream.packet_queue.push_back(PacketData::Packet(packet(9), 1));
    let action = play_video(&mut video, VideoEvent::Tick, &clock, 0, None);
    assert_eq!(action, Action::FlushDecoder);
    assert_eq!(video.phase, VideoPhase::Flushing);
    assert_eq!(video.stream.packet_queue.len(), 1);
    let action = play_video(&mut video, VideoEvent::Flushed, &clock, 0, None);
    assert_eq!(action, Action::Decode(packet(9)));
    assert_eq!(video.phase, VideoPhase::Decoding { loop_count: 1 });
}

#[test]
fn packet_without_picture_moves_on_to_the_next_entry() {
    let mut video = worker();
    let clock = TimeData::new();
    video.stream.packet_queue.push_back(PacketData::Packet(packet(1), 0));
    video.stream.packet_queue.push_back(PacketData::Packet(packet(2), 0));
    assert_eq!(play_video(&mut video, VideoEvent::Tick, &clock, 0, None), Action::Decode(packet(1)));
    let mut nothing = picture(0, "");
    nothing.format = PixelFormat::Missing;
    let action = play_video(&mut video, VideoEvent::Decoded(nothing), &clock, 0, None);
    assert_eq!(action, Action::Decode(packet(2)));
    assert_eq!((video.width, video.height), (None, None));
    let mut nothing = picture(0, "");
    nothing.format = PixelFormat::Missing;
    let action = play_video(&mut video, VideoEvent::Decoded(nothing), &clock, 0, None);
    assert_eq!(action, Action::Done(LoopState::Sleep(10)));
    assert_eq!(video.phase, VideoPhase::Idle);
}

#[test]
fn failures_end_the_video_loop() {
    let clock = TimeData::new();
    let mut video = worker();
    video.stream.packet_queue.push_back(PacketData::Packet(packet(1), 0));
    play_video(&mut video, VideoEvent::Tick, &clock, 0, None);
    assert_eq!(
        play_video(&mut video, VideoEvent::DecodeFailed, &clock, 0, None),
        Action::Done(LoopState::Exit)
    );
    assert_eq!(video.phase, VideoPhase::Idle);

    let mut video = worker();
    scale_source_frame(&mut video, picture(0, "a"), 0, Some((10, 10)));
    assert_eq!(
        play_video(&mut video, VideoEvent::ScaleFailed, &clock, 0, None),
        Action::Done(LoopState::Exit)
    );

    let mut video = worker();
    assert_eq!(schedule_frame(&mut video, picture(0, "a"), 0, &clock, 0), Action::Present(picture(0, "a")));
    assert_eq!(
        play_video(&mut video, VideoEvent::Presented(false), &clock, 0, None),
        Action::Done(LoopState::Exit)
    );
}

#[test]
fn video_event_that_was_not_asked_for_ends_the_loop() {
    let clock = TimeData::new();
    let mut video = worker();
    video.stream.packet_queue.push_back(PacketData::Packet(packet(1), 0));
    assert_eq!(
        play_video(&mut video, VideoEvent::Flushed, &clock, 0, None),
        Action::Done(LoopState::Exit)
    );
    assert_eq!(
        play_video(&mut video, VideoEvent::Decoded(picture(0, "a")), &clock, 0, None),
        Action::Done(LoopState::Exit)
    );
    assert_eq!(video.stream.packet_queue.len(), 1);
    assert_eq!((video.width, video.height), (None, None));
    play_video(&mut video, VideoEvent::Tick, &clock, 0, None);
    assert_eq!(video.phase, VideoPhase::Decoding { loop_count: 0 });
    assert_eq!(play_video(&mut video, VideoEvent::Tick, &clock, 0, None), Action::Done(LoopState::Exit));
    assert_eq!(video.phase, VideoPhase::Decoding { loop_count: 0 });
}

#[test]
fn queue_is_taken_from_the_front() {
    let mut video = worker();
    video.stream.packet_queue.push_back(PacketData::Packet(packet(1), 0));
    video.stream.packet_queue.push_back(PacketData::Flush);
    video.stream.packet_queue.push_back(PacketData::Packet(packet(3), 1));
    assert_eq!(get_source_frame(&mut video), Action::Decode(packet(1)));
    assert_eq!(get_source_frame(&mut video), Action::FlushDecoder);
    assert_eq!(get_source_frame(&mut video), Action::Decode(packet(3)));
    assert_eq!(video.phase, VideoPhase::Decoding { loop_count: 1 });
    assert_eq!(get_source_frame(&mut video), Action::Done(LoopState::Sleep(10)));
}

#[test]
fn shared_state_steps_the_video_worker_with_its_own_clock() {
    let tb = TimeBase::new(1, 1000).expect("a time base");
    let mut state: VideoState<u32, &'static str, u32> = VideoState::new(
        VideoStreamData::new(StreamData::new(0, tb, 10_000)),
        AudioStreamData::new(StreamData::new(1, tb, 10_000)),
        TimeData::new(),
    );
    state.video.scaled_frame = Some((picture(500, "rgba"), 1));
    state.time.pause_at(0);
    assert_eq!(state.step_video_at(VideoEvent::Tick, 20_000, None), Action::Done(LoopState::Sleep(50)));
    state.time.play_at(1_000);
    assert_eq!(state.step_video_at(VideoEvent::Tick, 1_000, None), Action::Done(LoopState::Sleep(10_500)));
    assert_eq!(state.step_video_at(VideoEvent::Tick, 11_500, None), Action::Present(picture(500, "rgba")));
}

#[test]
fn shared_state_reads_the_machine_clock() {
    let tb = TimeBase::new(1, 1000).expect("a time base");
    let mut state: VideoState<u32, &'static str, u32> = VideoState::new(
        VideoStreamData::new(StreamData::new(0, tb, 10_000)),
        AudioStreamData::new(StreamData::new(1, tb, 10_000)),
        TimeData::new(),
    );
    // due an hour after the start: the wait is most of an hour
    state.video.scaled_frame = Some((picture(3_600_000, "rgba"), 0));
    match state.step_video(VideoEvent::Tick, None) {
        VideoAction::Done(LoopState::Sleep(millis)) => {
            assert!(millis <= 3_600_000);
            assert!(millis > 3_500_000);
        }
        other => panic!("the picture is not due: {:?}", other),
    }
    // due at the start: shown at once
    state.video.scaled_frame = Some((picture(0, "rgba"), 0));
    assert_eq!(state.step_video(VideoEvent::Tick, None), Action::Present(picture(0, "rgba")));
}
