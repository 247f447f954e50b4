use crate::config::{KeyboardConfig, TextureFormat};
use crate::resource::ResourceData2D;
use vstd::prelude::*;

verus! {

/// The number of keys that the keyboard image has a column for.
pub const KEY_COUNT: usize = 256;

/// The byte that stands for "yes" in the keyboard image.
pub const KEY_ON: u8 = 255;

/// The keyboard as an image of three rows with a column for every key.
///
/// Row 0 says which keys are down, row 1 which keys went down at the last
/// tick, and row 2 holds a toggle for every key that flips whenever the key
/// goes down.
#[derive(Debug, Clone)]
pub struct Keyboard {
    bytes: [u8; 768],
}

/// Whether a key went down: it is down and was not down before.
pub open spec fn went_down(before: u8, now: u8) -> bool {
    now == KEY_ON && before == 0
}

/// The keyboard image after a tick at which `presses` says for every key
/// whether it is down.
pub open spec fn ticked(bytes: Seq<u8>, presses: Seq<u8>) -> Seq<u8> {
    Seq::new(
        768,
        |j: int|
            if j < 256 {
                presses[j]
            } else if j < 512 {
                if went_down(bytes[j - 256], presses[j - 256]) {
                    KEY_ON
                } else {
                    0u8
                }
            } else if went_down(bytes[j - 512], presses[j - 512]) {
                (KEY_ON - bytes[j]) as u8
            } else {
                bytes[j]
            },
    )
}

impl View for Keyboard {
    type V = Seq<u8>;

    closed spec fn view(&self) -> Seq<u8> {
        self.bytes@
    }
}

impl Keyboard {
    /// A keyboard on which no key is down and no toggle is set.
    pub fn new(_config: &KeyboardConfig) -> (keyboard: Keyboard)
        ensures
            keyboard@ == Seq::new(768, |j: int| 0u8),
    {
        let keyboard = Keyboard { bytes: [0u8; 768] };
        assert(keyboard.bytes@ =~= Seq::new(768, |j: int| 0u8));
        keyboard
    }

    /// Takes in which keys are down now: 255 for a key that is down, 0 for one
    /// that is not.
    pub fn tick(&mut self, presses: &[u8; 256])
        ensures
            final(self)@ == ticked(old(self)@, presses@),
    {
        let ghost before = self.bytes@;
        let mut i: usize = 0;
        while i < 256
            invariant
                i <= 256,
                forall|j: int| 0 <= j < 256 ==> self.bytes@[j] == before[j],
                forall|j: int| 512 <= j < 768 ==> self.bytes@[j] == before[j],
                forall|j: int|
                    0 <= j < i ==> self.bytes@[j + 256] == (if went_down(before[j], presses@[j]) {
                        KEY_ON
                    } else {
                        0u8
                    }),
            decreases 256 - i,
        {
            self.bytes[i + 256] = if presses[i] == 255 && self.bytes[i] == 0 {
                255
            } else {
                0
            };
            i = i + 1;
        }
        i = 0;
        while i < 256
            invariant
                i <= 256,
                forall|j: int| 0 <= j < i ==> self.bytes@[j] == presses@[j],
                forall|j: int| 512 <= j < 768 ==> self.bytes@[j] == before[j],
                forall|j: int|
                    0 <= j < 256 ==> self.bytes@[j + 256] == (if went_down(before[j], presses@[j]) {
                        KEY_ON
                    } else {
                        0u8
                    }),
            decreases 256 - i,
        {
            self.bytes[i] = presses[i];
            i = i + 1;
        }
        i = 0;
        while i < 256
            invariant
                i <= 256,
                forall|j: int| 0 <= j < 256 ==> self.bytes@[j] == presses@[j],
                forall|j: int| 512 + i <= j < 768 ==> self.bytes@[j] == before[j],
                forall|j: int|
                    0 <= j < 256 ==> self.bytes@[j + 256] == (if went_down(before[j], presses@[j]) {
                        KEY_ON
                    } else {
                        0u8
                    }),
                forall|j: int|
                    0 <= j < i ==> self.bytes@[j + 512] == (if went_down(before[j], presses@[j]) {
                        (KEY_ON - before[j + 512]) as u8
                    } else {
                        before[j + 512]
                    }),
            decreases 256 - i,
        {
            if self.bytes[i + 256] == 255 {
                self.bytes[i + 512] = 255 - self.bytes[i + 512];
            }
            i = i + 1;
        }
        assert(self.bytes@ =~= ticked(before, presses@)) by {
            assert forall|j: int| 0 <= j < 768 implies self.bytes@[j] == ticked(
                before,
                presses@,
            )[j] by {
                if 256 <= j < 512 {
                    assert(self.bytes@[(j - 256) + 256] == self.bytes@[j]);
                } else if 512 <= j {
                    assert(self.bytes@[(j - 512) + 512] == self.bytes@[j]);
                }
            }
        }
    }

    /// The three rows, one after the other.
    pub fn bytes(&self) -> (bytes: &[u8; 768])
        ensures
            bytes@ == self@,
    {
        &self.bytes
    }

    /// The keyboard image as a resource update: the whole image, 256 texels
    /// wide and 3 high, one byte per texel, at playback position 0.
    pub fn resource_data(&self) -> (data: ResourceData2D)
        ensures
            data.bytes@ == self@,
            data.width == 256,
            data.height == 3,
            data.format == TextureFormat::RU8,
            data.xoffset == 0,
            data.yoffset == 0,
            data.subwidth == 256,
            data.subheight == 3,
            data.time == Some(0u64),
    {
        let mut bytes: Vec<u8> = Vec::new();
        let mut i: usize = 0;
        while i < 768
            invariant
                i <= 768,
                bytes@.len() == i,
                forall|j: int| 0 <= j < i ==> bytes@[j] == self.bytes@[j],
            decreases 768 - i,
        {
            bytes.push(self.bytes[i]);
            i = i + 1;
        }
        assert(bytes@ =~= self.bytes@);
        ResourceData2D {
            bytes,
            width: 256,
            height: 3,
            format: TextureFormat::RU8,
            xoffset: 0,
            yoffset: 0,
            subwidth: 256,
            subheight: 3,
            time: Some(0),
        }
    }
}

} // verus!
