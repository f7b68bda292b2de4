//! The UI's decision logic: which command a click of the device button
//! sends, how notifications move the scanning and connection flags, which
//! label the button shows, and how a mask is shaded for the calibration
//! preview. Widget construction and layout stay outside the library.

use vstd::prelude::*;

use crate::actor::Msg;
use crate::bits::{bv_bits, bv_get, bv_len, ones};

verus! {

/// A notification arriving from the actor.
#[derive(Clone, Copy, Debug, PartialEq, Eq, Structural)]
pub enum UiEvent {
    StartScan,
    StopScan,
    Connect,
    Disconnect,
}

/// What the device button offers next.
#[derive(Clone, Copy, Debug, PartialEq, Eq, Structural)]
pub enum ButtonLabel {
    /// "Scan for Toys"
    Scan,
    /// "Stop Scanning"
    Stop,
    /// "Disconnect"
    Disconnect,
}

/// The UI's view of the world: whether discovery is running and whether a
/// device is connected.
#[derive(Clone, Copy, Debug, PartialEq, Eq, Structural)]
pub struct GuiState {
    pub scanning: bool,
    pub connected: bool,
}

impl GuiState {
    /// The initial view: not scanning, not connected.
    pub fn new() -> (r: GuiState)
        ensures
            !r.scanning,
            !r.connected,
    {
        GuiState { scanning: false, connected: false }
    }

    /// The command one click of the device button sends: disconnect while
    /// connected, otherwise start or stop discovery depending on whether one
    /// is running.
    pub fn on_click(&self) -> (r: Msg)
        ensures
            self.connected ==> r is Disconnect,
            !self.connected && !self.scanning ==> r is Scan,
            !self.connected && self.scanning ==> r is StopScan,
    {
        match (self.scanning, self.connected) {
            (_, true) => Msg::Disconnect,
            (false, false) => Msg::Scan,
            (true, false) => Msg::StopScan,
        }
    }

    /// One notification: the flags move first, then the device button is
    /// relabelled where the new state calls for it.
    pub fn event(&mut self, event: UiEvent) -> (label: Option<ButtonLabel>)
        ensures
            event is StartScan ==> final(self).scanning && final(self).connected == old(
                self,
            ).connected && label == (if old(self).connected {
                Option::<ButtonLabel>::None
            } else {
                Some(ButtonLabel::Stop)
            }),
            event is StopScan ==> !final(self).scanning && final(self).connected == old(
                self,
            ).connected && label == (if old(self).connected {
                Option::<ButtonLabel>::None
            } else {
                Some(ButtonLabel::Scan)
            }),
            event is Connect ==> final(self).connected && final(self).scanning == old(
                self,
            ).scanning && label == Some(ButtonLabel::Disconnect),
            event is Disconnect ==> !final(self).connected && final(self).scanning == old(
                self,
            ).scanning && label == (if old(self).scanning {
                Some(ButtonLabel::Stop)
            } else {
                Some(ButtonLabel::Scan)
            }),
    {
        match event {
            UiEvent::StartScan => {
                self.scanning = true;
            },
            UiEvent::StopScan => {
                self.scanning = false;
            },
            UiEvent::Connect => {
                self.connected = true;
            },
            UiEvent::Disconnect => {
                self.connected = false;
            },
        }

        match (self.scanning, self.connected, event) {
            (true, _, UiEvent::Disconnect) | (_, false, UiEvent::StartScan) => Some(
                ButtonLabel::Stop,
            ),
            (false, _, UiEvent::Disconnect) | (_, false, UiEvent::StopScan) => Some(
                ButtonLabel::Scan,
            ),
            (_, _, UiEvent::Connect) => Some(ButtonLabel::Disconnect),
            (_, _, UiEvent::StartScan) => None,
            (_, true, UiEvent::StopScan) => None,
        }
    }
}

/// How one pixel of the calibration preview is shaded.
#[derive(Clone, Copy, Debug, PartialEq, Eq, Structural)]
pub enum PreviewCell {
    /// A set bit within the tolerance budget.
    Bright,
    /// A set bit beyond the tolerance budget.
    Dim,
    /// A clear bit.
    Dark,
}

/// The preview shading of a mask: a clear bit is dark; a set bit is bright
/// while no more than `tolerance` set bits precede it, dim after.
pub open spec fn spec_preview(bits: Seq<bool>, tolerance: int) -> Seq<PreviewCell> {
    Seq::new(
        bits.len(),
        |i: int|
            if !bits[i] {
                PreviewCell::Dark
            } else if ones(bits.take(i)) <= tolerance {
                PreviewCell::Bright
            } else {
                PreviewCell::Dim
            },
    )
}

/// Shades a calibration mask for the preview image, one cell per bit.
pub fn preview_cells(bits: &bit_vec::BitVec, tolerance: usize) -> (cells: Vec<PreviewCell>)
    ensures
        cells@ == spec_preview(bv_bits(*bits), tolerance as int),
{
    let ghost s = bv_bits(*bits);
    let ghost out = spec_preview(s, tolerance as int);
    let n = bv_len(bits);
    let mut cells: Vec<PreviewCell> = Vec::new();
    let mut count: usize = 0;
    let mut i: usize = 0;
    while i < n
        invariant
            s == bv_bits(*bits),
            out == spec_preview(s, tolerance as int),
            n == s.len(),
            out.len() == s.len(),
            0 <= i <= n,
            count == ones(s.take(i as int)),
            count <= i,
            cells@ == out.take(i as int),
        decreases n - i,
    {
        proof {
            lemma_ones_take_step(s, i as int);
        }
        let bit = match bv_get(bits, i) {
            Some(b) => b,
            None => false,
        };
        let cell = if !bit {
            PreviewCell::Dark
        } else if count <= tolerance {
            PreviewCell::Bright
        } else {
            PreviewCell::Dim
        };
        proof {
            assert(cell == out[i as int]);
            assert(out.take(i + 1).drop_last() =~= out.take(i as int));
            assert(out.take(i + 1).last() == out[i as int]);
        }
        cells.push(cell);
        proof {
            assert(cells@ =~= out.take(i + 1));
        }
        if bit {
            count = count + 1;
        }
        i = i + 1;
    }
    proof {
        assert(out.take(out.len() as int) =~= out);
    }
    cells
}

/// One more bit extends the running count of ones by that bit.
proof fn lemma_ones_take_step(s: Seq<bool>, i: int)
    requires
        0 <= i < s.len(),
    ensures
        ones(s.take(i + 1)) == ones(s.take(i)) + if s[i] {
            1nat
        } else {
            0nat
        },
{
    assert(s.take(i + 1).drop_last() =~= s.take(i));
    assert(s.take(i + 1).last() == s[i]);
}

} // verus!
