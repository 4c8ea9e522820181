use vstd::prelude::*;

use crate::clk_out::{ClockData, GATE_LOW};
use crate::output::{ChannelArray, OutSignal, CHANNEL_COUNT};

verus! {

/// Channels carried by each of the two serial lanes.
pub const LANE_WIDTH: usize = 4;

/// The master clock after one tick: up by one, wrapping to 0 past
/// `u32::MAX`. Only phase differences are read downstream, so the wrap is
/// harmless.
pub fn advance_cycle(cycle: u32) -> (r: u32)
    ensures
        r == (cycle + 1) % 0x1_0000_0000,
{
    if cycle == u32::MAX {
        0
    } else {
        cycle + 1
    }
}

/// The words of one pass: lane A carries channels 0 to 3, lane B channels 4
/// to 7, in channel order.
#[derive(Clone, Copy, Debug)]
pub struct OutputFrame {
    pub lane_a: [u16; 4],
    pub lane_b: [u16; 4],
}

/// State kept by the real-time context across passes: the edge bookkeeping
/// of every channel.
#[derive(Clone, Copy, Debug)]
pub struct OutputCore {
    pub edges: [ClockData; 8],
}

impl OutputCore {
    /// All channels low, no edge seen.
    pub fn new() -> (r: OutputCore)
        ensures
            forall|i: int| 0 <= i < CHANNEL_COUNT ==> #[trigger] r.edges@[i] == (ClockData {
                last_edge_cycle: 0,
                high: false,
            }),
    {
        let e = ClockData::new();
        OutputCore { edges: [e, e, e, e, e, e, e, e] }
    }

    /// One pass of the real-time loop at master cycle `cycle`: evaluates every
    /// channel, records its edges, and lays the codes out on the two lanes.
    pub fn pass(&mut self, channels: &ChannelArray, cycle: u32) -> (r: OutputFrame)
        requires
            channels.wf(),
        ensures
            forall|i: int|
                0 <= i < LANE_WIDTH ==> #[trigger] r.lane_a@[i] == channels@[i].spec_output(
                    cycle as int,
                ),
            forall|i: int|
                0 <= i < LANE_WIDTH ==> #[trigger] r.lane_b@[i] == channels@[i
                    + LANE_WIDTH].spec_output(cycle as int),
            forall|i: int|
                0 <= i < CHANNEL_COUNT ==> #[trigger] final(self).edges@[i] == old(
                    self,
                ).edges@[i].recorded(cycle, channels@[i].spec_output(cycle as int) != GATE_LOW),
    {
        let codes = channels.output_codes(cycle);
        let mut i: usize = 0;
        while i < CHANNEL_COUNT
            invariant
                i <= CHANNEL_COUNT,
                forall|j: int| 0 <= j < CHANNEL_COUNT ==> #[trigger] codes@[j] == channels@[j].spec_output(cycle as int),
                forall|j: int|
                    0 <= j < i ==> #[trigger] self.edges@[j] == old(self).edges@[j].recorded(
                        cycle,
                        codes@[j] != GATE_LOW,
                    ),
                forall|j: int| i <= j < CHANNEL_COUNT ==> #[trigger] self.edges@[j] == old(self).edges@[j],
            decreases CHANNEL_COUNT - i,
        {
            let mut e = self.edges[i];
            e.record(cycle, codes[i] != GATE_LOW);
            self.edges[i] = e;
            i = i + 1;
        }
        OutputFrame {
            lane_a: [codes[0], codes[1], codes[2], codes[3]],
            lane_b: [codes[4], codes[5], codes[6], codes[7]],
        }
    }
}

} // verus!
