use voice_core::voice::{RtpData, TickAggregator, VoiceData};

fn packet(bytes: &[u8]) -> RtpData {
    RtpData { payload: bytes.to_vec() }
}

#[test]
fn single_speaker_with_packet_only() {
    let mut agg = TickAggregator::new();
    assert!(agg.record(7, Some(packet(&[1, 2, 3])), None));
    let tick = agg.finish_tick();
    assert_eq!(tick.speaking.len(), 1);
    assert_eq!(
        tick.speaking.get(&7),
        Some(&VoiceData { packet: Some(packet(&[1, 2, 3])), decoded_voice: None })
    );
    assert!(tick.silent.is_empty());
}

#[test]
fn known_speaker_not_recorded_is_silent() {
    let mut agg = TickAggregator::new();
    agg.record(9, Some(packet(&[4])), None);
    agg.finish_tick();
    let tick = agg.finish_tick();
    assert!(tick.speaking.is_empty());
    assert!(tick.silent.contains(&9));
    assert_eq!(tick.silent.len(), 1);
}

#[test]
fn record_without_evidence_is_rejected() {
    let mut agg = TickAggregator::new();
    assert!(!agg.record(5, None, None));
    let tick = agg.finish_tick();
    assert!(tick.speaking.is_empty());
    assert!(tick.silent.is_empty());
}

#[test]
fn record_with_decoded_audio_only() {
    let mut agg = TickAggregator::new();
    assert!(agg.record(3, None, Some(vec![0i16; 960])));
    let tick = agg.finish_tick();
    assert_eq!(
        tick.speaking.get(&3),
        Some(&VoiceData { packet: None, decoded_voice: Some(vec![0i16; 960]) })
    );
}

#[test]
fn later_record_overwrites_earlier_one() {
    let mut agg = TickAggregator::new();
    agg.record(7, Some(packet(&[1])), None);
    agg.record(7, None, Some(vec![2i16, 3]));
    let tick = agg.finish_tick();
    assert_eq!(tick.speaking.len(), 1);
    assert_eq!(
        tick.speaking.get(&7),
        Some(&VoiceData { packet: None, decoded_voice: Some(vec![2i16, 3]) })
    );
}

#[test]
fn speaking_and_silent_are_disjoint() {
    let mut agg = TickAggregator::new();
    agg.add_speaker(1);
    agg.add_speaker(2);
    agg.add_speaker(3);
    agg.record(2, Some(packet(&[9])), None);
    agg.record(4, Some(packet(&[8])), None);
    let tick = agg.finish_tick();
    for ssrc in tick.speaking.keys() {
        assert!(!tick.silent.contains(ssrc));
    }
    assert!(tick.silent.contains(&1));
    assert!(tick.silent.contains(&3));
    assert!(!tick.silent.contains(&2));
    assert!(!tick.silent.contains(&4));
}

#[test]
fn silence_covers_every_unrecorded_known_speaker() {
    let mut agg = TickAggregator::new();
    for ssrc in [10, 20, 30, 40] {
        agg.add_speaker(ssrc);
    }
    agg.record(20, Some(packet(&[1])), None);
    let tick = agg.finish_tick();
    assert_eq!(tick.silent.len(), 3);
    for ssrc in [10, 30, 40] {
        assert!(tick.silent.contains(&ssrc));
    }
}

#[test]
fn known_speakers_carry_over_between_ticks() {
    let mut agg = TickAggregator::new();
    agg.record(6, Some(packet(&[1])), None);
    agg.finish_tick();
    agg.record(8, Some(packet(&[2])), None);
    let tick = agg.finish_tick();
    assert!(tick.speaking.contains_key(&8));
    assert!(tick.silent.contains(&6));
}

#[test]
fn adding_a_speaker_twice_tracks_it_once() {
    let mut agg = TickAggregator::new();
    agg.add_speaker(5);
    agg.add_speaker(5);
    let tick = agg.finish_tick();
    assert_eq!(tick.silent.len(), 1);
    assert!(tick.silent.contains(&5));
}

#[test]
fn removed_speaker_leaves_both_sets() {
    let mut agg = TickAggregator::new();
    agg.add_speaker(1);
    agg.record(2, Some(packet(&[7])), None);
    agg.remove_speaker(2);
    let tick = agg.finish_tick();
    assert!(tick.speaking.is_empty());
    assert!(tick.silent.contains(&1));
    assert!(!tick.silent.contains(&2));
    let next = agg.finish_tick();
    assert!(!next.silent.contains(&2));
}

#[test]
fn finish_tick_resets_the_pending_records() {
    let mut agg = TickAggregator::new();
    agg.record(7, Some(packet(&[1])), None);
    let first = agg.finish_tick();
    assert_eq!(first.speaking.len(), 1);
    let second = agg.finish_tick();
    assert!(second.speaking.is_empty());
    assert!(second.silent.contains(&7));
}
