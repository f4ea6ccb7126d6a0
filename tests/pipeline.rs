use lidar_protocol::angle::{angle_diff_q6, sample_angle_q6};
use lidar_protocol::cabin::decode_cabin;
use lidar_protocol::error::LidarError;
use lidar_protocol::pipeline::{decode_points, ScanDecoder};
use lidar_protocol::frame::deserialize_express_scan_extended;

fn make_frame(start_angle: u16, new_revolution: bool, cabins: &[u32; 32]) -> [u8; 132] {
    let mut b = [0u8; 132];
    b[2] = (start_angle & 0xff) as u8;
    b[3] = ((start_angle >> 8) as u8 & 0x7f) | if new_revolution { 0x80 } else { 0 };
    for (k, c) in cabins.iter().enumerate() {
        b[4 + 4 * k..8 + 4 * k].copy_from_slice(&c.to_le_bytes());
    }
    let mut x = 0u8;
    for byte in &b[2..] {
        x ^= *byte;
    }
    b[0] = 0xa0 | (x & 0x0f);
    b[1] = 0x50 | (x >> 4);
    b
}

fn cabin_word(major: u32, predict1: i32, predict2: i32) -> u32 {
    major | (((predict1 as u32) & 0x3ff) << 12) | (((predict2 as u32) & 0x3ff) << 22)
}

fn first_cabins() -> [u32; 32] {
    let mut cabins = [0u32; 32];
    for (k, c) in cabins.iter_mut().enumerate() {
        *c = cabin_word(100 + 37 * k as u32, k as i32 - 16, 3 - k as i32);
    }
    cabins[5] = cabin_word(0, 4, 4);
    cabins[9] = cabin_word(800, -512, 511);
    cabins
}

fn second_cabins() -> [u32; 32] {
    let mut cabins = [0u32; 32];
    for (k, c) in cabins.iter_mut().enumerate() {
        *c = cabin_word(2000 + k as u32, 1, -1);
    }
    cabins
}

#[test]
fn pipeline_two_frames_give_96_points() {
    let mut decoder = ScanDecoder::new();
    let first = make_frame(23000, true, &first_cabins());
    let second = make_frame(100, false, &second_cabins());
    assert!(decoder.push_frame(&first).unwrap().is_none());
    let sweep = decoder.push_frame(&second).unwrap().unwrap();
    assert_eq!(sweep.points.len(), 96);
    assert!(sweep.start_of_new_revolution);
    assert_eq!(sweep.start_angle_q6, 23000);
    let diff = angle_diff_q6(23000, 100);
    assert_eq!(diff, 140);
    for p in &sweep.points {
        assert!(p.angle_q6 < 23040);
        let past = (p.angle_q6 as u32 + 23040 - 23000) % 23040;
        assert!(past <= diff as u32, "angle {} outside the sweep", p.angle_q6);
    }
    let held = decoder.previous.as_ref().unwrap();
    assert_eq!(held.start_angle_q6, 100);
    assert!(!held.start_of_new_revolution);
}

#[test]
fn pipeline_points_follow_cabins_and_angles() {
    let firsts = first_cabins();
    let seconds = second_cabins();
    let mut decoder = ScanDecoder::new();
    decoder.push_frame(&make_frame(1000, false, &firsts)).unwrap();
    let sweep = decoder.push_frame(&make_frame(1960, false, &seconds)).unwrap().unwrap();
    for i in 0..32 {
        let next = if i == 31 { seconds[0] } else { firsts[i + 1] };
        let distances = decode_cabin(firsts[i], next);
        for j in 0..3 {
            let p = sweep.points[3 * i + j];
            assert_eq!(p.distance_q2, distances[j]);
            assert_eq!(p.angle_q6, sample_angle_q6(1000, 1960, i, j));
            assert_eq!(p.angle_q6, 1000 + 10 * (3 * i + j) as u16);
        }
    }
    // Cabin 9 carries both sentinels.
    assert_eq!(sweep.points[28].distance_q2, 0);
    assert_eq!(sweep.points[29].distance_q2, 0);
    // Cabin 5 has a zero anchor and borrows the anchor of cabin 6.
    assert_eq!(sweep.points[15].distance_q2, 0);
    assert_ne!(sweep.points[16].distance_q2, 0);
}

#[test]
fn pipeline_last_cabin_looks_into_next_frame() {
    let firsts = first_cabins();
    let seconds = second_cabins();
    let a = deserialize_express_scan_extended(&make_frame(0, false, &firsts)).unwrap();
    let b = deserialize_express_scan_extended(&make_frame(960, false, &seconds)).unwrap();
    let points = decode_points(&a, &b);
    assert_eq!(points.len(), 96);
    let last = decode_cabin(firsts[31], seconds[0]);
    assert_eq!(points[95].distance_q2, last[2]);
    assert_eq!(points[95].angle_q6, 950);
}

#[test]
fn pipeline_error_keeps_previous() {
    let mut decoder = ScanDecoder::new();
    decoder.push_frame(&make_frame(500, false, &first_cabins())).unwrap();
    let mut bad = make_frame(600, false, &second_cabins());
    bad[70] ^= 0xff;
    assert_eq!(decoder.push_frame(&bad).err(), Some(LidarError::Integrity));
    let mut desynced = make_frame(600, false, &second_cabins());
    desynced[1] = 0x00;
    assert_eq!(decoder.push_frame(&desynced).err(), Some(LidarError::Framing));
    assert_eq!(decoder.previous.as_ref().unwrap().start_angle_q6, 500);
    let sweep = decoder.push_frame(&make_frame(600, false, &second_cabins())).unwrap().unwrap();
    assert_eq!(sweep.start_angle_q6, 500);
    assert_eq!(sweep.points.len(), 96);
}

#[test]
fn pipeline_first_frame_error_leaves_empty() {
    let mut decoder = ScanDecoder::new();
    let mut bad = make_frame(500, false, &first_cabins());
    bad[0] = 0;
    assert_eq!(decoder.push_frame(&bad).err(), Some(LidarError::Framing));
    assert!(decoder.previous.is_none());
}
