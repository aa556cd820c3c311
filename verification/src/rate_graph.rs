//! Bounded ring buffer of data-rate samples for one CoBo. When the
//! buffer is full the oldest sample is dropped to admit the newest,
//! which produces the ticker-tape effect in the plot.
//!
//! A sample is the byte count of one two-second poll window; the
//! internal clock advances by two seconds per sample.

use vstd::prelude::*;
use vstd::string::*;

verus! {

/// Seconds between two samples.
pub const TIME_INCREMENT: u64 = 2;

/// Mathematical content of a [`RateGraph`].
#[verifier::ext_equal]
pub struct RateGraphView {
    pub points: Seq<u64>,
    pub max_points: usize,
    pub last_time: u64,
    pub name: Seq<char>,
}

/// A named, bounded sample history.
#[derive(Debug)]
pub struct RateGraph {
    points: Vec<u64>,
    max_points: usize,
    last_time: u64,
    name: String,
}

impl View for RateGraph {
    type V = RateGraphView;

    closed spec fn view(&self) -> RateGraphView {
        RateGraphView {
            points: self.points@,
            max_points: self.max_points,
            last_time: self.last_time,
            name: self.name@,
        }
    }
}

/// A well-formed graph never holds more samples than its bound.
pub open spec fn spec_graph_wf(v: RateGraphView) -> bool {
    v.points.len() <= v.max_points
}

/// What admitting one sample does: the buffer keeps at most
/// `max_points` samples by dropping the oldest, and the clock advances
/// one increment, saturating at the top of `u64`.
pub open spec fn spec_add_point(v: RateGraphView, rate: u64) -> RateGraphView {
    let points = if v.max_points == 0 {
        v.points
    } else if v.points.len() < v.max_points {
        v.points.push(rate)
    } else {
        v.points.skip(1).push(rate)
    };
    let last_time = if v.last_time > u64::MAX - TIME_INCREMENT {
        u64::MAX
    } else {
        (v.last_time + TIME_INCREMENT) as u64
    };
    RateGraphView { points: points, last_time: last_time, ..v }
}

/// The drawn points: sample `i` of `n` is placed at time
/// `(i + 1 - n) * 2`, so the newest sample sits at time zero and older
/// samples march into the past.
pub open spec fn spec_points_to_draw(v: RateGraphView) -> Seq<(i128, u64)> {
    Seq::new(v.points.len(), |i: int| ((2 * (i + 1 - v.points.len())) as i128, v.points[i]))
}

impl RateGraph {
    /// Create an empty named graph holding at most `max_points`
    /// samples.
    pub fn new(name: &str, max_points: &usize) -> (graph: RateGraph)
        ensures
            spec_graph_wf(graph@),
            graph@.points.len() == 0,
            graph@.max_points == *max_points,
            graph@.last_time == 0,
            graph@.name == name@,
    {
        RateGraph {
            points: Vec::new(),
            max_points: *max_points,
            last_time: 0,
            name: name.to_owned(),
        }
    }

    /// Admit one sample. The buffer length afterwards is the smaller
    /// of one more than before and the bound, and the clock has moved
    /// one increment (up to the top of its range).
    pub fn add_point(&mut self, rate: u64)
        requires
            spec_graph_wf(old(self)@),
        ensures
            spec_graph_wf(final(self)@),
            final(self)@ == spec_add_point(old(self)@, rate),
            old(self)@.points.len() < old(self)@.max_points ==> final(self)@.points.len() == old(
                self,
            )@.points.len() + 1,
            old(self)@.points.len() >= old(self)@.max_points ==> final(self)@.points.len() == old(
                self,
            )@.max_points,
            old(self)@.last_time <= u64::MAX - TIME_INCREMENT ==> final(self)@.last_time == old(
                self,
            )@.last_time + TIME_INCREMENT,
    {
        if self.max_points > 0 {
            if self.points.len() == self.max_points {
                self.points.remove(0);
                proof {
                    assert(self.points@ =~= old(self)@.points.skip(1));
                }
            }
            self.points.push(rate);
        }
        self.last_time = if self.last_time > u64::MAX - TIME_INCREMENT {
            u64::MAX
        } else {
            self.last_time + TIME_INCREMENT
        };
        proof {
            assert(self@ =~= spec_add_point(old(self)@, rate));
        }
    }

    /// The samples laid out for drawing, newest at time zero.
    pub fn get_points_to_draw(&self) -> (r: Vec<(i128, u64)>)
        ensures
            r@ == spec_points_to_draw(self@),
    {
        let n = self.points.len();
        let mut r: Vec<(i128, u64)> = Vec::new();
        let mut i: usize = 0;
        while i < n
            invariant
                i <= n,
                n == self@.points.len(),
                self@.points == self.points@,
                r@.len() == i,
                forall|k: int| 0 <= k < i ==> r@[k] == spec_points_to_draw(self@)[k],
            decreases n - i,
        {
            let x: i128 = (i as i128 + 1 - n as i128) * 2;
            r.push((x, self.points[i]));
            i += 1;
        }
        proof {
            assert(r@ =~= spec_points_to_draw(self@));
        }
        r
    }

    /// The graph's display name.
    pub fn get_name(&self) -> (name: &String)
        ensures
            name@ == self@.name,
    {
        &self.name
    }

    /// The sample bound.
    pub fn get_max_points(&self) -> (n: usize)
        ensures
            n == self@.max_points,
    {
        self.max_points
    }

    /// Drop every sample and zero the clock.
    pub fn reset(&mut self)
        ensures
            final(self)@.points.len() == 0,
            final(self)@.last_time == 0,
            final(self)@.max_points == old(self)@.max_points,
            final(self)@.name == old(self)@.name,
    {
        self.points.clear();
        self.last_time = 0;
    }

    /// Change the bound. The history is reset on purpose: keeping a
    /// partial window would alias samples taken under the old bound.
    pub fn change_max_points(&mut self, max_points: &usize)
        ensures
            spec_graph_wf(final(self)@),
            final(self)@.points.len() == 0,
            final(self)@.last_time == 0,
            final(self)@.max_points == *max_points,
            final(self)@.name == old(self)@.name,
    {
        self.max_points = *max_points;
        self.reset();
    }
}

} // verus!
