use video_player::audio::AudioStreamData;
use video_player::clock::TimeData;
use video_player::config::LoopState;
use video_player::config::AUDIO_PACKET_QUEUE_MAX;
use video_player::config::VIDEO_PACKET_QUEUE_MAX;
use video_player::fetcher::enqueue_next_packet;
use video_player::fetcher::FetchAction;
use video_player::fetcher::FetchEvent;
use video_player::fetcher::FetchPhase;
use video_player::fetcher::VideoState;
use video_player::stream::Packet;
use video_player::stream::PacketData;
use video_player::stream::StreamData;
use video_player::stream::TimeBase;
use video_player::video::VideoStreamData;

fn fresh() -> VideoState<u32, u32, u32> {
    let tb = TimeBase::new(1, 1000).expect("a time base");
    let mut time = TimeData::new();
    time.set_duration(10_000);
    VideoState::new(
        VideoStreamData::new(StreamData::new(0, tb, 10_000)),
        AudioStreamData::new(StreamData::new(1, tb, 10_000)),
        time,
    )
}

fn packet(payload: u32) -> Packet<u32> {
    Packet { payload, size: 4 }
}

fn deliver(state: &mut VideoState<u32, u32, u32>, stream_index: usize, payload: u32) -> FetchAction {
    assert_eq!(enqueue_next_packet(state, FetchEvent::Tick), FetchAction::Read);
    enqueue_next_packet(state, FetchEvent::Packet { stream_index, packet: packet(payload) })
}

#[test]
fn packets_go_to_the_queue_of_their_stream() {
    let mut state = fresh();
    assert_eq!(deliver(&mut state, 0, 10), FetchAction::Done(LoopState::Running));
    assert_eq!(deliver(&mut state, 1, 11), FetchAction::Done(LoopState::Running));
    assert_eq!(deliver(&mut state, 0, 12), FetchAction::Done(LoopState::Running));
    assert_eq!(state.video.stream.packet_queue.len(), 2);
    assert_eq!(state.audio.stream.packet_queue.len(), 1);
    assert_eq!(state.video.stream.packet_queue[0], PacketData::Packet(packet(10), 0));
    assert_eq!(state.video.stream.packet_queue[1], PacketData::Packet(packet(12), 0));
    assert_eq!(state.audio.stream.packet_queue[0], PacketData::Packet(packet(11), 0));
    assert_eq!(state.phase, FetchPhase::Ready);
    assert_eq!(state.loop_count, 0);
}

#[test]
fn packet_of_an_unknown_stream_is_dropped() {
    let mut state = fresh();
    assert_eq!(deliver(&mut state, 5, 10), FetchAction::Done(LoopState::Running));
    assert_eq!(state.video.stream.packet_queue.len(), 0);
    assert_eq!(state.audio.stream.packet_queue.len(), 0);
    assert_eq!(state.phase, FetchPhase::Ready);
}

#[test]
fn full_video_queue_stops_the_fetcher() {
    let mut state = fresh();
    for i in 0..VIDEO_PACKET_QUEUE_MAX {
        assert_eq!(deliver(&mut state, 0, i as u32), FetchAction::Done(LoopState::Running));
    }
    assert_eq!(state.video.stream.packet_queue.len(), 1024);
    for _ in 0..3 {
        assert_eq!(
            enqueue_next_packet(&mut state, FetchEvent::Tick),
            FetchAction::Done(LoopState::Sleep(50))
        );
        assert_eq!(state.phase, FetchPhase::Ready);
        assert_eq!(state.video.stream.packet_queue.len(), 1024);
        assert_eq!(state.audio.stream.packet_queue.len(), 0);
    }
    // one entry drained: the fetcher reads again
    state.video.stream.packet_queue.pop_front();
    assert_eq!(deliver(&mut state, 0, 5000), FetchAction::Done(LoopState::Running));
    assert_eq!(state.video.stream.packet_queue.len(), 1024);
    assert_eq!(state.video.stream.packet_queue[1023], PacketData::Packet(packet(5000), 0));
}

#[test]
fn full_audio_queue_stops_the_fetcher() {
    let mut state = fresh();
    for i in 0..AUDIO_PACKET_QUEUE_MAX {
        assert_eq!(deliver(&mut state, 1, i as u32), FetchAction::Done(LoopState::Running));
    }
    assert_eq!(state.audio.stream.packet_queue.len(), 512);
    assert_eq!(
        enqueue_next_packet(&mut state, FetchEvent::Tick),
        FetchAction::Done(LoopState::Sleep(50))
    );
    assert_eq!(state.audio.stream.packet_queue.len(), 512);
    assert_eq!(state.video.stream.packet_queue.len(), 0);
}

#[test]
fn entry_for_a_full_queue_ends_the_loop_and_adds_nothing() {
    let mut state = fresh();
    for _ in 0..VIDEO_PACKET_QUEUE_MAX {
        state.video.stream.packet_queue.push_back(PacketData::Flush);
    }
    state.phase = FetchPhase::Reading;
    assert_eq!(
        enqueue_next_packet(&mut state, FetchEvent::Packet { stream_index: 0, packet: packet(1) }),
        FetchAction::Done(LoopState::Exit)
    );
    assert_eq!(state.video.stream.packet_queue.len(), 1024);
    state.phase = FetchPhase::Rewinding;
    assert_eq!(
        enqueue_next_packet(&mut state, FetchEvent::Rewound),
        FetchAction::Done(LoopState::Exit)
    );
    assert_eq!(state.video.stream.packet_queue.len(), 1024);
    assert_eq!(state.audio.stream.packet_queue.len(), 0);
    assert_eq!(state.loop_count, 0);
}

#[test]
fn end_of_input_without_looping_idles() {
    let mut state = fresh();
    assert_eq!(enqueue_next_packet(&mut state, FetchEvent::Tick), FetchAction::Read);
    assert_eq!(
        enqueue_next_packet(&mut state, FetchEvent::EndOfInput),
        FetchAction::Done(LoopState::Sleep(50))
    );
    assert_eq!(state.phase, FetchPhase::Ready);
    assert_eq!(state.loop_count, 0);
    assert_eq!(state.video.stream.packet_queue.len(), 0);
    assert_eq!(state.audio.stream.packet_queue.len(), 0);
}

#[test]
fn each_traversal_of_a_looping_input_counts_one_loop() {
    let mut state = fresh();
    state.time.set_looping(true);
    for round in 0..3_u32 {
        assert_eq!(state.loop_count, round);
        assert_eq!(deliver(&mut state, 0, 100 + round), FetchAction::Done(LoopState::Running));
        assert_eq!(deliver(&mut state, 1, 200 + round), FetchAction::Done(LoopState::Running));
        assert_eq!(state.loop_count, round);
        assert_eq!(enqueue_next_packet(&mut state, FetchEvent::Tick), FetchAction::Read);
        assert_eq!(enqueue_next_packet(&mut state, FetchEvent::EndOfInput), FetchAction::Rewind);
        assert_eq!(state.phase, FetchPhase::Rewinding);
        assert_eq!(state.loop_count, round);
        assert_eq!(
            enqueue_next_packet(&mut state, FetchEvent::Rewound),
            FetchAction::Done(LoopState::Running)
        );
        assert_eq!(state.loop_count, round + 1);
    }
    let video: Vec<&PacketData<u32>> = state.video.stream.packet_queue.iter().collect();
    assert_eq!(
        video,
        vec![
            &PacketData::Packet(packet(100), 0),
            &PacketData::Flush,
            &PacketData::Packet(packet(101), 1),
            &PacketData::Flush,
            &PacketData::Packet(packet(102), 2),
            &PacketData::Flush,
        ]
    );
    let audio: Vec<&PacketData<u32>> = state.audio.stream.packet_queue.iter().collect();
    assert_eq!(
        audio,
        vec![
            &PacketData::Packet(packet(200), 0),
            &PacketData::Flush,
            &PacketData::Packet(packet(201), 1),
            &PacketData::Flush,
            &PacketData::Packet(packet(202), 2),
            &PacketData::Flush,
        ]
    );
}

#[test]
fn loop_count_stops_at_its_largest_value() {
    let mut state = fresh();
    state.time.set_looping(true);
    state.loop_count = u32::MAX;
    assert_eq!(enqueue_next_packet(&mut state, FetchEvent::Tick), FetchAction::Read);
    assert_eq!(enqueue_next_packet(&mut state, FetchEvent::EndOfInput), FetchAction::Rewind);
    assert_eq!(
        enqueue_next_packet(&mut state, FetchEvent::Rewound),
        FetchAction::Done(LoopState::Running)
    );
    assert_eq!(state.loop_count, u32::MAX);
}

#[test]
fn failure_to_read_or_seek_ends_the_loop() {
    let mut state = fresh();
    assert_eq!(enqueue_next_packet(&mut state, FetchEvent::Tick), FetchAction::Read);
    assert_eq!(
        enqueue_next_packet(&mut state, FetchEvent::ReadFailed),
        FetchAction::Done(LoopState::Exit)
    );
    assert_eq!(state.phase, FetchPhase::Ready);

    let mut state = fresh();
    state.time.set_looping(true);
    assert_eq!(enqueue_next_packet(&mut state, FetchEvent::Tick), FetchAction::Read);
    assert_eq!(enqueue_next_packet(&mut state, FetchEvent::EndOfInput), FetchAction::Rewind);
    assert_eq!(
        enqueue_next_packet(&mut state, FetchEvent::RewindFailed),
        FetchAction::Done(LoopState::Exit)
    );
    assert_eq!(state.loop_count, 0);
    assert_eq!(state.video.stream.packet_queue.len(), 0);
}

#[test]
fn event_that_was_not_asked_for_ends_the_loop() {
    let mut state = fresh();
    assert_eq!(
        enqueue_next_packet(&mut state, FetchEvent::Packet { stream_index: 0, packet: packet(1) }),
        FetchAction::Done(LoopState::Exit)
    );
    assert_eq!(state.video.stream.packet_queue.len(), 0);
    assert_eq!(enqueue_next_packet(&mut state, FetchEvent::Rewound), FetchAction::Done(LoopState::Exit));
    assert_eq!(state.loop_count, 0);
    assert_eq!(enqueue_next_packet(&mut state, FetchEvent::Tick), FetchAction::Read);
    assert_eq!(enqueue_next_packet(&mut state, FetchEvent::Tick), FetchAction::Done(LoopState::Exit));
    assert_eq!(state.phase, FetchPhase::Reading);
}

#[test]
fn same_index_for_both_streams_favours_video() {
    let tb = TimeBase::new(1, 1000).expect("a time base");
    let mut state: VideoState<u32, u32, u32> = VideoState::new(
        VideoStreamData::new(StreamData::new(2, tb, 0)),
        AudioStreamData::new(StreamData::new(2, tb, 0)),
        TimeData::new(),
    );
    assert_eq!(deliver(&mut state, 2, 1), FetchAction::Done(LoopState::Running));
    assert_eq!(state.video.stream.packet_queue.len(), 1);
    assert_eq!(state.audio.stream.packet_queue.len(), 0);
}
