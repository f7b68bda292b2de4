//! The persisted configuration: the colour channel a target samples, the
//! target geometry, and the calibration mask recorded for it.

use vstd::prelude::*;

verus! {

/// The seven colour-extraction modes a target can select.
#[derive(Clone, Copy, Debug, PartialEq, Eq, Structural)]
pub enum Channel {
    Red,
    Green,
    Blue,

    Cyan,
    Magenta,
    Yellow,
    Black,
}

/// The largest of three components.
pub open spec fn max3(r: int, g: int, b: int) -> int {
    if r >= g && r >= b {
        r
    } else if g >= b {
        g
    } else {
        b
    }
}

/// `n / d` rounded to the nearest integer, halves away from zero, for
/// `n >= 0` and `d > 0`.
pub open spec fn rounded_ratio(n: int, d: int) -> int {
    (2 * n + d) / (2 * d)
}

/// The scalar a channel reads from one pixel. Red, green and blue return the
/// raw component. The derived channels rescale the CMYK decomposition of the
/// pixel back to 0..=255: with `m` the largest component, black is `255 - m`
/// and cyan, magenta and yellow are `255 * (m - component) / m`, rounded to
/// the nearest integer. A pure-black pixel has no defined hue, so it reads as
/// the maximum on the black channel and as the minimum on the other derived
/// channels.
pub open spec fn channel_value(c: Channel, r: int, g: int, b: int) -> int {
    match c {
        Channel::Red => r,
        Channel::Green => g,
        Channel::Blue => b,
        _ => {
            if r == 0 && g == 0 && b == 0 {
                if c is Black {
                    255
                } else {
                    0
                }
            } else {
                let m = max3(r, g, b);
                match c {
                    Channel::Cyan => rounded_ratio(255 * (m - r), m),
                    Channel::Magenta => rounded_ratio(255 * (m - g), m),
                    Channel::Yellow => rounded_ratio(255 * (m - b), m),
                    _ => 255 - m,
                }
            }
        },
    }
}

proof fn lemma_rounded_ratio_bounds(n: int, d: int)
    requires
        0 <= n <= 255 * d,
        0 < d,
    ensures
        0 <= rounded_ratio(n, d) <= 255,
{
    assert(0 <= (2 * n + d) / (2 * d) <= 255) by (nonlinear_arith)
        requires
            0 <= n <= 255 * d,
            0 < d,
    ;
}

impl Channel {
    /// The scalar this channel reads from a pixel given by its red, green and
    /// blue components.
    pub fn extract(self, red: u8, green: u8, blue: u8) -> (v: u8)
        ensures
            v == channel_value(self, red as int, green as int, blue as int),
    {
        match self {
            Channel::Red => return red,
            Channel::Green => return green,
            Channel::Blue => return blue,
            _ => (),
        }

        if red == 0 && green == 0 && blue == 0 {
            return match self {
                Channel::Black => 255,
                _ => 0,
            };
        }

        let mut m: u8 = red;
        if green > m {
            m = green;
        }
        if blue > m {
            m = blue;
        }
        assert(m as int == max3(red as int, green as int, blue as int));

        let component: u8 = match self {
            Channel::Cyan => red,
            Channel::Magenta => green,
            Channel::Yellow => blue,
            _ => return 255 - m,
        };

        let num: u32 = 510 * ((m - component) as u32) + m as u32;
        let q: u32 = num / (2 * m as u32);

        proof {
            let n = 255 * (m as int - component as int);
            assert(num == 2 * n + m as int);
            assert(q == rounded_ratio(n, m as int));
            lemma_rounded_ratio_bounds(n, m as int);
        }
        q as u8
    }
}

/// The geometry and matching parameters of a target: a square region of side
/// `size` centred on `(x, y)`, the channel sampled there, the threshold a
/// rescaled value must reach to set its bit, and the largest number of bit
/// differences still tolerated by a match.
#[derive(Clone, Copy, Debug, PartialEq, Eq, Structural)]
pub struct TargetSpec {
    pub x: usize,
    pub y: usize,
    pub size: usize,

    pub channel: Channel,
    pub threshold: u8,
    pub count: usize,
}

impl TargetSpec {
    /// The region arithmetic stays within `usize`.
    pub open spec fn fits(&self) -> bool {
        &&& self.x + self.size / 2 + 1 <= usize::MAX
        &&& self.y + self.size / 2 + 1 <= usize::MAX
    }
}

/// A calibrated target: its parameters together with the mask recorded from
/// the calibration frame. The mask's length must equal the pixel count of the
/// region the parameters select; a mismatch is a fatal configuration error,
/// reported by the matcher.
pub struct Target {
    pub spec: TargetSpec,
    pub mask: bit_vec::BitVec,
}

/// The persisted configuration: at most one calibrated target.
pub struct Config {
    pub target: Option<Target>,
}

impl Default for Config {
    /// An empty configuration, the fallback when none was saved yet.
    fn default() -> (r: Self)
        ensures
            r.target is None,
    {
        Config { target: None }
    }
}

/// Why the configuration could not be read or written. The store itself runs
/// outside the library; it reports its failure as one of these.
#[derive(Clone, Copy, Debug, PartialEq, Eq, Structural)]
pub enum Error {
    NoDirectories,
    CreateDir,
    Open,
    Write,
    Read,
    Deserialize,
}

/// Which channel a name denotes, or `None` when it names none.
pub open spec fn spec_channel_of(s: Seq<char>) -> Option<Channel> {
    if s == "Red"@ {
        Some(Channel::Red)
    } else if s == "Green"@ {
        Some(Channel::Green)
    } else if s == "Blue"@ {
        Some(Channel::Blue)
    } else if s == "Cyan"@ {
        Some(Channel::Cyan)
    } else if s == "Magenta"@ {
        Some(Channel::Magenta)
    } else if s == "Yellow"@ {
        Some(Channel::Yellow)
    } else if s == "Black"@ {
        Some(Channel::Black)
    } else {
        None
    }
}

/// Whether `txt` reads exactly as the characters handed in.
fn reads_as(txt: &str, name: &Vec<char>) -> (r: bool)
    ensures
        r == (txt@ =~= name@),
{
    let n = txt.unicode_len();
    if n != name.len() {
        return false;
    }
    let mut i: usize = 0;
    while i < n
        invariant
            0 <= i <= n,
            n == txt@.len() == name@.len(),
            forall|j: int| 0 <= j < i ==> txt@[j] == name@[j],
        decreases n - i,
    {
        if txt.get_char(i) != name[i] {
            return false;
        }
        i = i + 1;
    }
    true
}

impl Channel {
    /// The channel a name denotes. Only the seven capitalised channel names
    /// are accepted.
    pub fn from_str(txt: &str) -> (r: Option<Channel>)
        ensures
            r == spec_channel_of(txt@),
    {
        proof {
            reveal_strlit("Red");
            reveal_strlit("Green");
            reveal_strlit("Blue");
            reveal_strlit("Cyan");
            reveal_strlit("Magenta");
            reveal_strlit("Yellow");
            reveal_strlit("Black");
        }
        let red = vec!['R', 'e', 'd'];
        let green = vec!['G', 'r', 'e', 'e', 'n'];
        let blue = vec!['B', 'l', 'u', 'e'];
        let cyan = vec!['C', 'y', 'a', 'n'];
        let magenta = vec!['M', 'a', 'g', 'e', 'n', 't', 'a'];
        let yellow = vec!['Y', 'e', 'l', 'l', 'o', 'w'];
        let black = vec!['B', 'l', 'a', 'c', 'k'];
        assert(red@ =~= "Red"@);
        assert(green@ =~= "Green"@);
        assert(blue@ =~= "Blue"@);
        assert(cyan@ =~= "Cyan"@);
        assert(magenta@ =~= "Magenta"@);
        assert(yellow@ =~= "Yellow"@);
        assert(black@ =~= "Black"@);
        if reads_as(txt, &red) {
            Some(Channel::Red)
        } else if reads_as(txt, &green) {
            Some(Channel::Green)
        } else if reads_as(txt, &blue) {
            Some(Channel::Blue)
        } else if reads_as(txt, &cyan) {
            Some(Channel::Cyan)
        } else if reads_as(txt, &magenta) {
            Some(Channel::Magenta)
        } else if reads_as(txt, &yellow) {
            Some(Channel::Yellow)
        } else if reads_as(txt, &black) {
            Some(Channel::Black)
        } else {
            None
        }
    }
}

} // verus!
