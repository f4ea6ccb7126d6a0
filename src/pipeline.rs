//! The scan decoder: frames in, samples out. Each frame's samples are
//! emitted once the next frame has arrived, since their angles and the
//! last cabin's second prediction depend on it.
use vstd::prelude::*;

use crate::angle::{lemma_sample_angle_in_sweep, sample_angle_of, sample_angle_q6, angle_diff_of};
use crate::cabin::{anchor_distance, decode_cabin, first_predicted_distance, second_predicted_distance};
use crate::error::LidarError;
use crate::frame::{deserialize_express_scan_extended, frame_error, ScanPacket, CABIN_COUNT};

verus! {

/// One sample: an angle in 1/64 degree and a distance in quarter
/// millimetres, zero where there was no valid return.
#[derive(Debug, Clone, Copy, PartialEq, Eq, Structural)]
pub struct LidarPoint {
    pub angle_q6: u16,
    pub distance_q2: u32,
}

/// The samples of one frame, with the header fields a consumer needs to
/// split the stream into revolutions.
pub struct Sweep {
    /// When the frame was decoded.
    pub captured_at: std::time::Instant,
    /// Whether the frame began a new revolution.
    pub start_of_new_revolution: bool,
    /// The frame's start angle, in 1/64 degree.
    pub start_angle_q6: u16,
    /// The 96 samples, cabin by cabin, three per cabin.
    pub points: Vec<LidarPoint>,
}

/// The cabin that follows cabin `cabin` of `previous`: the first cabin of
/// `current` after the last one.
pub open spec fn next_cabin_of(previous: &ScanPacket, current: &ScanPacket, cabin: int) -> u32 {
    if cabin == 31 {
        current.cabins[0]
    } else {
        previous.cabins[cabin + 1]
    }
}

/// The distance of sample `sub` of cabin `cabin` of `previous`.
pub open spec fn sample_distance_of(
    previous: &ScanPacket,
    current: &ScanPacket,
    cabin: int,
    sub: int,
) -> int {
    let c = previous.cabins[cabin];
    let n = next_cabin_of(previous, current, cabin);
    if sub == 0 {
        anchor_distance(c)
    } else if sub == 1 {
        first_predicted_distance(c, n)
    } else {
        second_predicted_distance(c, n)
    }
}

/// Sample `k` (cabin `k / 3`, sub-sample `k % 3`) of the frame `previous`,
/// where `current` is the frame after it.
pub open spec fn expected_point(previous: &ScanPacket, current: &ScanPacket, k: int) -> LidarPoint {
    LidarPoint {
        angle_q6: sample_angle_of(
            previous.start_angle_q6 as int,
            current.start_angle_q6 as int,
            k / 3,
            k % 3,
        ) as u16,
        distance_q2: sample_distance_of(previous, current, k / 3, k % 3) as u32,
    }
}

/// The 96 samples of `previous`, given the frame `current` that follows it.
pub fn decode_points(previous: &ScanPacket, current: &ScanPacket) -> (r: Vec<LidarPoint>)
    ensures
        r@.len() == 96,
        forall|k: int| 0 <= k < 96 ==> #[trigger] r@[k] == expected_point(previous, current, k),
        forall|k: int|
            0 <= k < 96 ==> (#[trigger] r@[k].angle_q6 - previous.start_angle_q6) % 23040
                <= angle_diff_of(previous.start_angle_q6 as int, current.start_angle_q6 as int),
{
    let mut points: Vec<LidarPoint> = Vec::new();
    let mut i: usize = 0;
    while i < CABIN_COUNT
        invariant
            0 <= i <= CABIN_COUNT,
            points@.len() == 3 * i,
            forall|k: int| 0 <= k < 3 * i ==> #[trigger] points@[k] == expected_point(previous, current, k),
        decreases CABIN_COUNT - i,
    {
        let next = if i == 31 {
            current.cabins[0]
        } else {
            previous.cabins[i + 1]
        };
        let distances = decode_cabin(previous.cabins[i], next);
        let mut j: usize = 0;
        while j < 3
            invariant
                0 <= i < CABIN_COUNT,
                0 <= j <= 3,
                points@.len() == 3 * i + j,
                next == next_cabin_of(previous, current, i as int),
                distances@.len() == 3,
                distances[0] == anchor_distance(previous.cabins[i as int]),
                distances[1] == first_predicted_distance(previous.cabins[i as int], next),
                distances[2] == second_predicted_distance(previous.cabins[i as int], next),
                forall|k: int|
                    0 <= k < 3 * i + j ==> #[trigger] points@[k] == expected_point(previous, current, k),
            decreases 3 - j,
        {
            let angle_q6 = sample_angle_q6(previous.start_angle_q6, current.start_angle_q6, i, j);
            let point = LidarPoint { angle_q6, distance_q2: distances[j] };
            proof {
                let k = 3 * i + j;
                assert(k / 3 == i as int && k % 3 == j as int);
            }
            points.push(point);
            j = j + 1;
        }
        i = i + 1;
    }
    proof {
        assert forall|k: int| 0 <= k < 96 implies (#[trigger] points@[k].angle_q6
            - previous.start_angle_q6) % 23040 <= angle_diff_of(
            previous.start_angle_q6 as int,
            current.start_angle_q6 as int,
        ) by {
            lemma_sample_angle_in_sweep(previous.start_angle_q6, current.start_angle_q6, k / 3, k % 3);
        }
    }
    points
}

/// The sweep that frame `previous` yields once `current` has followed it.
pub open spec fn is_sweep_of(sweep: &Sweep, previous: &ScanPacket, current: &ScanPacket) -> bool {
    &&& sweep.captured_at == previous.captured_at
    &&& sweep.start_of_new_revolution == previous.start_of_new_revolution
    &&& sweep.start_angle_q6 == previous.start_angle_q6
    &&& sweep.points@.len() == 96
    &&& forall|k: int| 0 <= k < 96 ==> #[trigger] sweep.points@[k] == expected_point(previous, current, k)
}

/// Decodes a stream of frames. It holds the last frame decoded, whose
/// samples wait for the frame after it.
pub struct ScanDecoder {
    /// The last frame decoded, if any.
    pub previous: Option<ScanPacket>,
}

impl ScanDecoder {
    /// A decoder that has seen no frame.
    pub fn new() -> (r: ScanDecoder)
        ensures
            r.previous is None,
    {
        ScanDecoder { previous: None }
    }

    /// Takes the next frame of the stream. A frame that fails its sync or
    /// checksum test is reported, and the decoder keeps its state. The
    /// first frame yields no samples; each later one yields those of the
    /// frame before it. The new frame is then held.
    pub fn push_frame(&mut self, frame: &[u8; 132]) -> (r: Result<Option<Sweep>, LidarError>)
        ensures
            frame_error(frame@) is Some ==> r is Err && r->Err_0 == frame_error(frame@)->Some_0
                && final(self).previous == old(self).previous,
            frame_error(frame@) is None ==> {
                &&& r is Ok
                &&& final(self).previous is Some
                &&& final(self).previous->Some_0.decoded_from(frame@)
                &&& old(self).previous is None ==> r->Ok_0 is None
                &&& old(self).previous is Some ==> r->Ok_0 is Some && is_sweep_of(
                    &r->Ok_0->Some_0,
                    &old(self).previous->Some_0,
                    &final(self).previous->Some_0,
                )
            },
    {
        let packet = match deserialize_express_scan_extended(frame) {
            Ok(packet) => packet,
            Err(e) => {
                return Err(e);
            },
        };
        match self.previous.take() {
            None => {
                self.previous = Some(packet);
                Ok(None)
            },
            Some(previous) => {
                let points = decode_points(&previous, &packet);
                let sweep = Sweep {
                    captured_at: previous.captured_at,
                    start_of_new_revolution: previous.start_of_new_revolution,
                    start_angle_q6: previous.start_angle_q6,
                    points,
                };
                self.previous = Some(packet);
                Ok(Some(sweep))
            },
        }
    }
}

} // verus!
