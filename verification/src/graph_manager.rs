//! Keeper of one rate graph per CoBo. It observes the hub's message
//! batches, routes each Surveyor snapshot's window byte count to the
//! graph of its module, and hands the front end the drawn point
//! series.

use vstd::prelude::*;
use vstd::string::*;
use crate::constants::NUMBER_OF_MODULES;
use crate::error::EmbassyError;
use crate::message::{EmbassyMessage, EmbassyMessageView, MessageKind, MessagePayloadView};
use crate::rate_graph::{
    spec_add_point, spec_graph_wf, spec_points_to_draw, RateGraph, RateGraphView,
};
use crate::textutil::{spec_nat_chars, u32_to_string};

verus! {

/// Mathematical content of a [`GraphManager`].
#[verifier::ext_equal]
pub struct GraphManagerView {
    pub graphs: Seq<RateGraphView>,
    pub max_points: usize,
}

/// The graphs of all CoBos and their common sample bound.
#[derive(Debug)]
pub struct GraphManager {
    graphs: Vec<RateGraph>,
    max_points: usize,
}

impl View for GraphManager {
    type V = GraphManagerView;

    closed spec fn view(&self) -> GraphManagerView {
        GraphManagerView {
            graphs: self.graphs@.map_values(|g: RateGraph| g@),
            max_points: self.max_points,
        }
    }
}

/// What one envelope does to the graphs: a Surveyor snapshot for a
/// CoBo in range feeds its window byte count to that CoBo's graph;
/// everything else changes nothing.
pub open spec fn spec_graph_ingest(v: GraphManagerView, m: EmbassyMessageView) -> GraphManagerView {
    match m.payload {
        MessagePayloadView::Surveyor(p) => {
            if m.kind == MessageKind::Surveyor && 0 <= m.id < v.graphs.len() {
                GraphManagerView {
                    graphs: v.graphs.update(
                        m.id as int,
                        spec_add_point(v.graphs[m.id as int], p.window_bytes),
                    ),
                    ..v
                }
            } else {
                v
            }
        },
        _ => v,
    }
}

/// Ingesting a batch, in order. Envelopes of other kinds are passed
/// over without effect.
pub open spec fn spec_graph_ingest_all(
    v: GraphManagerView,
    ms: Seq<EmbassyMessageView>,
) -> GraphManagerView
    decreases ms.len(),
{
    if ms.len() == 0 {
        v
    } else {
        spec_graph_ingest(spec_graph_ingest_all(v, ms.drop_last()), ms.last())
    }
}

impl GraphManager {
    /// One well-formed graph per CoBo, each within its bound.
    pub open spec fn wf(&self) -> bool {
        &&& self@.graphs.len() == NUMBER_OF_MODULES - 1
        &&& forall|i: int| 0 <= i < self@.graphs.len() ==> spec_graph_wf(#[trigger] self@.graphs[i])
    }

    /// One empty graph per CoBo, named `envoy_<id>`, all sharing
    /// `max_points`.
    pub fn new(max_points: usize) -> (manager: GraphManager)
        ensures
            manager.wf(),
            manager@.max_points == max_points,
            forall|i: int|
                0 <= i < NUMBER_OF_MODULES - 1 ==> {
                    &&& (#[trigger] manager@.graphs[i]).points.len() == 0
                    &&& manager@.graphs[i].max_points == max_points
                    &&& manager@.graphs[i].name == "envoy_"@ + spec_nat_chars(i)
                },
    {
        let mut graphs: Vec<RateGraph> = Vec::new();
        let mut i: usize = 0;
        while i < NUMBER_OF_MODULES - 1
            invariant
                i <= NUMBER_OF_MODULES - 1,
                graphs@.len() == i,
                forall|k: int|
                    0 <= k < i ==> {
                        &&& spec_graph_wf((#[trigger] graphs@[k])@)
                        &&& graphs@[k]@.points.len() == 0
                        &&& graphs@[k]@.max_points == max_points
                        &&& graphs@[k]@.last_time == 0
                        &&& graphs@[k]@.name == "envoy_"@ + spec_nat_chars(k)
                    },
            decreases NUMBER_OF_MODULES - 1 - i,
        {
            let mut name = String::from_str("envoy_");
            let digits = u32_to_string(i as u32);
            name.append(digits.as_str());
            graphs.push(RateGraph::new(name.as_str(), &max_points));
            i += 1;
        }
        GraphManager { graphs, max_points }
    }

    /// Ingest a batch of envelopes in order, feeding every Surveyor
    /// snapshot's byte count to its CoBo's graph. Stops with a
    /// kind-mismatch error at the first Surveyor-tagged envelope in
    /// range whose payload is of another kind.
    pub fn handle_messages(&mut self, messages: &[EmbassyMessage]) -> (r: Result<
        (),
        EmbassyError,
    >)
        requires
            old(self).wf(),
        ensures
            final(self).wf(),
            final(self)@.max_points == old(self)@.max_points,
            r is Ok ==> final(self)@ == spec_graph_ingest_all(
                old(self)@,
                messages@.map_values(|m: EmbassyMessage| m@),
            ),
            r matches Err(e) ==> exists|j: int|
                {
                    &&& 0 <= j < messages@.len()
                    &&& (#[trigger] messages@[j])@.kind == MessageKind::Surveyor
                    &&& 0 <= messages@[j]@.id < NUMBER_OF_MODULES - 1
                    &&& !(messages@[j]@.payload matches MessagePayloadView::Surveyor(_))
                    &&& final(self)@ == spec_graph_ingest_all(
                        old(self)@,
                        messages@.map_values(|m: EmbassyMessage| m@).take(j),
                    )
                    &&& e matches EmbassyError::MessageKindError(want, got) && want
                        == MessageKind::Surveyor && got == MessageKind::Surveyor
                },
    {
        let ghost v0 = self@;
        let ghost views = messages@.map_values(|m: EmbassyMessage| m@);
        let mut k: usize = 0;
        while k < messages.len()
            invariant
                old(self).wf(),
                self.wf(),
                k <= messages@.len(),
                v0 == old(self)@,
                views == messages@.map_values(|m: EmbassyMessage| m@),
                self@.max_points == v0.max_points,
                self@ == spec_graph_ingest_all(v0, views.take(k as int)),
            decreases messages@.len() - k,
        {
            let message = &messages[k];
            proof {
                assert(views.take(k + 1).drop_last() =~= views.take(k as int));
                assert(views.take(k + 1).last() == messages@[k as int]@);
            }
            match message.kind {
                MessageKind::Surveyor => {
                    if message.id >= 0 && (message.id as usize) < NUMBER_OF_MODULES - 1 {
                        let resp = match message.try_into_surveyor() {
                            Ok(resp) => resp,
                            Err(e) => {
                                proof {
                                    assert(0 <= k < messages@.len()
                                        && (messages@[k as int])@.kind == MessageKind::Surveyor
                                        && 0 <= messages@[k as int]@.id < NUMBER_OF_MODULES - 1
                                        && !(messages@[k as int]@.payload
                                        matches MessagePayloadView::Surveyor(_)) && self@
                                        == spec_graph_ingest_all(v0, views.take(k as int)));
                                }
                                return Err(e);
                            },
                        };
                        let idx = message.id as usize;
                        proof {
                            assert(self.graphs@[idx as int]@ == self@.graphs[idx as int]);
                            assert(spec_graph_wf(self@.graphs[idx as int]));
                        }
                        let ghost prev = self@;
                        self.graphs[idx].add_point(resp.window_bytes);
                        proof {
                            assert(self@.graphs =~= prev.graphs.update(
                                idx as int,
                                self.graphs@[idx as int]@,
                            ));
                            assert(self@.graphs =~= spec_graph_ingest_all(
                                v0,
                                views.take(k + 1),
                            ).graphs);
                            assert(self@ =~= spec_graph_ingest_all(v0, views.take(k + 1)));
                        }
                    }
                },
                _ => {},
            }
            proof {
                assert(self@ =~= spec_graph_ingest_all(v0, views.take(k + 1)));
            }
            k += 1;
        }
        proof {
            assert(views.take(messages@.len() as int) =~= views);
        }
        Ok(())
    }

    /// The drawn series of every graph: its name and its points,
    /// newest at time zero.
    pub fn get_line_graphs(&self) -> (r: Vec<(String, Vec<(i128, u64)>)>)
        ensures
            r@.len() == self@.graphs.len(),
            forall|i: int|
                0 <= i < r@.len() ==> {
                    &&& (#[trigger] r@[i]).0@ == self@.graphs[i].name
                    &&& r@[i].1@ == spec_points_to_draw(self@.graphs[i])
                },
    {
        let mut r: Vec<(String, Vec<(i128, u64)>)> = Vec::new();
        let mut i: usize = 0;
        while i < self.graphs.len()
            invariant
                i <= self.graphs@.len(),
                self@.graphs.len() == self.graphs@.len(),
                forall|k: int| 0 <= k < self.graphs@.len() ==> (#[trigger] self.graphs@[k])@
                    == self@.graphs[k],
                r@.len() == i,
                forall|k: int|
                    0 <= k < i ==> {
                        &&& (#[trigger] r@[k]).0@ == self@.graphs[k].name
                        &&& r@[k].1@ == spec_points_to_draw(self@.graphs[k])
                    },
            decreases self.graphs@.len() - i,
        {
            let g = &self.graphs[i];
            let name = g.get_name().clone();
            let points = g.get_points_to_draw();
            r.push((name, points));
            i += 1;
        }
        r
    }

    /// Reset every graph, as at the start of a run.
    pub fn reset_graphs(&mut self)
        requires
            old(self).wf(),
        ensures
            final(self).wf(),
            final(self)@.max_points == old(self)@.max_points,
            final(self)@.graphs.len() == old(self)@.graphs.len(),
            forall|i: int|
                0 <= i < final(self)@.graphs.len() ==> {
                    &&& (#[trigger] final(self)@.graphs[i]).points.len() == 0
                    &&& final(self)@.graphs[i].last_time == 0
                    &&& final(self)@.graphs[i].max_points == old(self)@.graphs[i].max_points
                    &&& final(self)@.graphs[i].name == old(self)@.graphs[i].name
                },
    {
        let mut i: usize = 0;
        while i < self.graphs.len()
            invariant
                i <= self.graphs@.len(),
                self.graphs@.len() == old(self)@.graphs.len(),
                self@.max_points == old(self)@.max_points,
                forall|k: int|
                    i <= k < self.graphs@.len() ==> (#[trigger] self@.graphs[k]) == old(
                        self,
                    )@.graphs[k],
                forall|k: int|
                    0 <= k < i ==> {
                        &&& (#[trigger] self@.graphs[k]).points.len() == 0
                        &&& self@.graphs[k].last_time == 0
                        &&& self@.graphs[k].max_points == old(self)@.graphs[k].max_points
                        &&& self@.graphs[k].name == old(self)@.graphs[k].name
                    },
            decreases self.graphs@.len() - i,
        {
            let ghost prev = self@;
            proof {
                assert(self@.graphs[i as int] == old(self)@.graphs[i as int]);
            }
            self.graphs[i].reset();
            proof {
                assert(self@.graphs =~= prev.graphs.update(i as int, self.graphs@[i as int]@));
                assert(self@.graphs[i as int].points.len() == 0);
                assert(self@.graphs[i as int].max_points == old(self)@.graphs[i as int].max_points);
            }
            i += 1;
        }
    }

    /// Change every graph's bound (resetting each) and remember it.
    pub fn set_max_points(&mut self, max_points: &usize)
        requires
            old(self).wf(),
        ensures
            final(self).wf(),
            final(self)@.max_points == *max_points,
            final(self)@.graphs.len() == old(self)@.graphs.len(),
            forall|i: int|
                0 <= i < final(self)@.graphs.len() ==> {
                    &&& (#[trigger] final(self)@.graphs[i]).points.len() == 0
                    &&& final(self)@.graphs[i].last_time == 0
                    &&& final(self)@.graphs[i].max_points == *max_points
                    &&& final(self)@.graphs[i].name == old(self)@.graphs[i].name
                },
    {
        self.max_points = *max_points;
        let mut i: usize = 0;
        while i < self.graphs.len()
            invariant
                i <= self.graphs@.len(),
                self.graphs@.len() == old(self)@.graphs.len(),
                self@.max_points == *max_points,
                forall|k: int|
                    i <= k < self.graphs@.len() ==> (#[trigger] self@.graphs[k]) == old(
                        self,
                    )@.graphs[k],
                forall|k: int|
                    0 <= k < i ==> {
                        &&& (#[trigger] self@.graphs[k]).points.len() == 0
                        &&& self@.graphs[k].last_time == 0
                        &&& self@.graphs[k].max_points == *max_points
                        &&& self@.graphs[k].name == old(self)@.graphs[k].name
                    },
            decreases self.graphs@.len() - i,
        {
            let ghost prev = self@;
            proof {
                assert(self@.graphs[i as int] == old(self)@.graphs[i as int]);
            }
            self.graphs[i].change_max_points(max_points);
            proof {
                assert(self@.graphs =~= prev.graphs.update(i as int, self.graphs@[i as int]@));
                assert(self@.graphs[i as int].points.len() == 0);
                assert(self@.graphs[i as int].name == old(self)@.graphs[i as int].name);
            }
            i += 1;
        }
    }

    /// The common sample bound.
    pub fn get_max_points(&self) -> (n: &usize)
        ensures
            *n == self@.max_points,
    {
        &self.max_points
    }
}

} // verus!
