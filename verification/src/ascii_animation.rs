use crate::timer::{fresh_timer, just_finished, new_timer, tick, ticked, timer_just_finished};
use bevy::time::Timer;
use core::time::Duration;
use vstd::arithmetic::div_mod::lemma_fundamental_div_mod_converse;
use vstd::prelude::*;
use vstd::string::*;
use vstd::utf8::encode_utf8;

verus! {

/// A colour as red, green and blue bytes.
#[derive(Debug, Clone, Copy, PartialEq, Eq, Structural)]
pub struct Rgb {
    pub r: u8,
    pub g: u8,
    pub b: u8,
}

/// A column and a row of a frame.
#[derive(Debug, Clone, Copy, PartialEq, Eq, Structural)]
pub struct UVec2 {
    pub x: u32,
    pub y: u32,
}

/// The place of one glyph inside its animation's frame.
#[derive(Debug, Clone, Copy, PartialEq, Eq, Structural)]
pub struct AsciiChar {
    pub pos: UVec2,
}

/// The value of a hexadecimal digit given as a byte of text: `0` to `9`,
/// `a` to `f` or `A` to `F`.
pub open spec fn hex_digit(byte: u8) -> Option<u8> {
    if 48 <= byte <= 57 {
        Some((byte - 48) as u8)
    } else if 97 <= byte <= 102 {
        Some((byte - 87) as u8)
    } else if 65 <= byte <= 70 {
        Some((byte - 55) as u8)
    } else {
        None
    }
}

/// The value of two bytes of text read as a hexadecimal number. A plus sign
/// (byte 43) may stand in place of the first digit.
pub open spec fn hex_pair(hi: u8, lo: u8) -> Option<u8> {
    match (hex_digit(hi), hex_digit(lo)) {
        (Some(h), Some(l)) => Some((16 * h + l) as u8),
        (None, Some(l)) => if hi == 43 {
            Some(l)
        } else {
            None
        },
        _ => None,
    }
}

/// Reads one hexadecimal digit.
pub fn parse_hex_digit(byte: u8) -> (value: Option<u8>)
    ensures
        value == hex_digit(byte),
        value matches Some(v) ==> v < 16,
{
    if 48 <= byte && byte <= 57 {
        Some(byte - 48)
    } else if 97 <= byte && byte <= 102 {
        Some(byte - 87)
    } else if 65 <= byte && byte <= 70 {
        Some(byte - 55)
    } else {
        None
    }
}

/// Reads two bytes of text as a hexadecimal number.
pub fn parse_hex_pair(hi: u8, lo: u8) -> (value: Option<u8>)
    ensures
        value == hex_pair(hi, lo),
{
    match parse_hex_digit(lo) {
        None => None,
        Some(l) => match parse_hex_digit(hi) {
            Some(h) => Some(16 * h + l),
            None => if hi == 43 {
                Some(l)
            } else {
                None
            },
        },
    }
}

/// How many `#` bytes (byte 35) a text starts with.
pub open spec fn leading_hashes(bytes: Seq<u8>) -> nat
    decreases bytes.len(),
{
    if bytes.len() > 0 && bytes[0] == 35 {
        1 + leading_hashes(bytes.skip(1))
    } else {
        0
    }
}

proof fn lemma_leading_hashes(bytes: Seq<u8>, k: int)
    requires
        0 <= k <= bytes.len(),
        forall|i: int| 0 <= i < k ==> bytes[i] == 35,
        k < bytes.len() ==> bytes[k] != 35,
    ensures
        leading_hashes(bytes) == k,
    decreases k,
{
    if k > 0 {
        let rest = bytes.skip(1);
        assert forall|i: int| 0 <= i < k - 1 implies rest[i] == 35 by {
            assert(rest[i] == bytes[i + 1]);
        }
        lemma_leading_hashes(rest, k - 1);
    }
}

/// One colour channel: the two bytes at `at`, or 255 where they are no
/// hexadecimal number.
pub open spec fn channel(bytes: Seq<u8>, at: int) -> u8 {
    match hex_pair(bytes[at], bytes[at + 1]) {
        Some(v) => v,
        None => 255,
    }
}

/// The colour that a text names: after any leading `#`, two bytes each for
/// red, green and blue.
pub open spec fn spec_color_from_hex(bytes: Seq<u8>) -> Rgb {
    let digits = bytes.skip(leading_hashes(bytes) as int);
    Rgb { r: channel(digits, 0), g: channel(digits, 2), b: channel(digits, 4) }
}

fn parse_channel(bytes: &[u8], at: usize) -> (value: u8)
    requires
        at + 1 < bytes@.len(),
    ensures
        value == channel(bytes@, at as int),
{
    match parse_hex_pair(bytes[at], bytes[at + 1]) {
        Some(v) => v,
        None => 255,
    }
}

/// Reads a colour such as `#ff8800` or `ff8800`. A channel that is no
/// hexadecimal number counts as 255. The text must hold six bytes after
/// its leading `#`s.
pub fn color_from_hex(hex: &str) -> (color: Rgb)
    requires
        leading_hashes(encode_utf8(hex@)) + 6 <= encode_utf8(hex@).len(),
    ensures
        color == spec_color_from_hex(encode_utf8(hex@)),
{
    let bytes = hex.as_bytes();
    let mut start: usize = 0;
    while start < bytes.len() && bytes[start] == 35
        invariant
            start <= bytes@.len(),
            forall|i: int| 0 <= i < start ==> bytes@[i] == 35,
        decreases bytes@.len() - start,
    {
        start = start + 1;
    }
    proof {
        lemma_leading_hashes(bytes@, start as int);
    }
    let ghost digits = bytes@.skip(start as int);
    let r = parse_channel(bytes, start);
    let g = parse_channel(bytes, start + 2);
    let b = parse_channel(bytes, start + 4);
    assert(channel(bytes@, start as int) == channel(digits, 0));
    assert(channel(bytes@, start + 2) == channel(digits, 2));
    assert(channel(bytes@, start + 4) == channel(digits, 4));
    Rgb { r, g, b }
}

/// A sheet of frames as it is stored: every cell of every frame with its
/// glyph and the text of its colour, frame after frame, row after row.
pub struct AsciiAnimationAsset {
    pub frames: Vec<(char, String)>,
    pub frame_size: UVec2,
    pub frame_num: usize,
    pub frame_time: Duration,
}

/// A sheet of frames that is being played.
pub struct AsciiAnimation {
    pub frames: Vec<(char, Rgb)>,
    pub current_frame: usize,
    pub frame_num: usize,
    pub frame_size: UVec2,
    pub frame_time: Timer,
}

/// The frame that follows `current` among `frame_num`, the first one after
/// the last.
pub open spec fn frame_after(current: int, frame_num: int) -> int {
    (current + 1) % frame_num
}

/// The frame that precedes `current` among `frame_num`, the last one before
/// the first.
pub open spec fn frame_before(current: int, frame_num: int) -> int {
    if current == 0 {
        frame_num - 1
    } else {
        current - 1
    }
}

/// The remainder of a number below three times the divisor.
proof fn lemma_mod_below_three(x: int, n: int)
    requires
        0 < n,
        0 <= x < 3 * n,
    ensures
        x % n == (if x < n {
            x
        } else if x < 2 * n {
            x - n
        } else {
            x - 2 * n
        }),
{
    if x < n {
        lemma_fundamental_div_mod_converse(x, n, 0, x);
    } else if x < 2 * n {
        lemma_fundamental_div_mod_converse(x, n, 1, x - n);
    } else {
        lemma_fundamental_div_mod_converse(x, n, 2, x - 2 * n);
    }
}

/// Stepping on and then back, or back and then on, comes back to the same
/// frame.
pub proof fn lemma_frame_steps_undo(current: int, frame_num: int)
    requires
        0 <= current < frame_num,
    ensures
        0 <= frame_after(current, frame_num) < frame_num,
        0 <= frame_before(current, frame_num) < frame_num,
        frame_before(frame_after(current, frame_num), frame_num) == current,
        frame_after(frame_before(current, frame_num), frame_num) == current,
{
    lemma_mod_below_three(current + 1, frame_num);
    lemma_mod_below_three(frame_before(current, frame_num) + 1, frame_num);
}

impl AsciiAnimation {
    /// Where the cell at `pos` of the current frame lies in `frames`.
    pub open spec fn cell_index(&self, pos: UVec2) -> int {
        (pos.x + pos.y * self.frame_size.x) + (self.current_frame * self.frame_size.x
            * self.frame_size.y)
    }

    /// Whether `pos` lies inside a frame.
    pub open spec fn in_frame(&self, pos: UVec2) -> bool {
        pos.x < self.frame_size.x && pos.y < self.frame_size.y
    }

    /// The sheet holds every cell of every frame, and the current frame is
    /// one of them.
    pub open spec fn wf(&self) -> bool {
        &&& self.current_frame < self.frame_num
        &&& self.frame_num * self.frame_size.x * self.frame_size.y <= self.frames@.len()
    }

    /// In a well-formed animation every cell of the current frame is held.
    pub proof fn lemma_cell_is_held(&self, pos: UVec2)
        requires
            self.wf(),
            self.in_frame(pos),
        ensures
            0 <= self.cell_index(pos) < self.frames@.len(),
    {
        let w = self.frame_size.x as int;
        let h = self.frame_size.y as int;
        let c = self.current_frame as int;
        let n = self.frame_num as int;
        let x = pos.x as int;
        let y = pos.y as int;
        assert(x + y * w + c * w * h < n * w * h && 0 <= x + y * w + c * w * h) by (nonlinear_arith)
            requires
                0 <= x < w,
                0 <= y < h,
                0 <= c < n,
        ;
    }

    /// The glyph and colour of the cell at `pos` in the current frame.
    pub fn get_ascii_char_at(&self, pos: &UVec2) -> (cell: (char, Rgb))
        requires
            0 <= self.cell_index(*pos) < self.frames@.len(),
        ensures
            cell == self.frames@[self.cell_index(*pos)],
    {
        let w: usize = self.frame_size.x as usize;
        let h: usize = self.frame_size.y as usize;
        let x: usize = pos.x as usize;
        let y: usize = pos.y as usize;
        let c: usize = self.current_frame;
        let len: usize = self.frames.len();
        proof {
            assert(0 <= y * w && 0 <= c * w * h && (h > 0 ==> c * w <= c * w * h)) by (nonlinear_arith)
                requires
                    0 <= y,
                    0 <= w,
                    0 <= c,
                    0 <= h,
            ;
            assert(h == 0 ==> c * w * h == 0) by (nonlinear_arith);
            assert(self.cell_index(*pos) == (x + y * w) + (c * w * h));
            assert((x + y * w) + (c * w * h) < len);
        }
        let in_frame: usize = x + y * w;
        let before: usize = if h == 0 {
            0
        } else {
            c * w * h
        };
        self.frames[in_frame + before]
    }

    /// Moves on to the next frame, and from the last frame to the first.
    pub fn next_frame(&mut self)
        requires
            old(self).frame_num > 0,
            old(self).current_frame < usize::MAX,
        ensures
            final(self).current_frame == frame_after(
                old(self).current_frame as int,
                old(self).frame_num as int,
            ),
            final(self).frames == old(self).frames,
            final(self).frame_num == old(self).frame_num,
            final(self).frame_size == old(self).frame_size,
            final(self).frame_time == old(self).frame_time,
            old(self).wf() ==> final(self).wf(),
    {
        self.current_frame = (self.current_frame + 1) % self.frame_num;
    }

    /// Moves back to the previous frame, and from the first frame to the
    /// last.
    pub fn previous_frame(&mut self)
        requires
            old(self).frame_num > 0 || old(self).current_frame > 0,
        ensures
            final(self).current_frame == frame_before(
                old(self).current_frame as int,
                old(self).frame_num as int,
            ),
            final(self).frames == old(self).frames,
            final(self).frame_num == old(self).frame_num,
            final(self).frame_size == old(self).frame_size,
            final(self).frame_time == old(self).frame_time,
            old(self).wf() ==> final(self).wf(),
    {
        if self.current_frame == 0 {
            self.current_frame = self.frame_num - 1;
        } else {
            self.current_frame = self.current_frame - 1;
        }
    }

    /// Lets `delta` pass. Where the frame clock completes, the animation
    /// moves on to the next frame; the result tells whether it did.
    pub fn play(&mut self, delta: Duration) -> (changed: bool)
        requires
            old(self).frame_num > 0,
            old(self).current_frame < usize::MAX,
        ensures
            final(self).frame_time == ticked(old(self).frame_time, delta),
            changed == timer_just_finished(final(self).frame_time),
            final(self).current_frame == (if changed {
                frame_after(old(self).current_frame as int, old(self).frame_num as int)
            } else {
                old(self).current_frame as int
            }),
            final(self).frames == old(self).frames,
            final(self).frame_num == old(self).frame_num,
            final(self).frame_size == old(self).frame_size,
            old(self).wf() ==> final(self).wf(),
    {
        tick(&mut self.frame_time, delta);
        let changed = just_finished(&self.frame_time);
        if changed {
            self.next_frame();
        }
        changed
    }
}

/// One glyph of a frame, ready to be drawn: its place, its character and
/// its colour.
#[derive(Debug, Clone, Copy, PartialEq, Eq, Structural)]
pub struct AsciiGlyph {
    pub tag: AsciiChar,
    pub ch: char,
    pub color: Rgb,
}

impl AsciiAnimation {
    /// Every cell of the current frame is held.
    pub open spec fn frame_held(&self) -> bool {
        forall|pos: UVec2|
            self.in_frame(pos) ==> 0 <= #[trigger] self.cell_index(pos) < self.frames@.len()
    }

    /// The glyph at column `x` and row `y` of the current frame.
    pub open spec fn glyph_at(&self, x: int, y: int) -> AsciiGlyph {
        let pos = UVec2 { x: x as u32, y: y as u32 };
        AsciiGlyph {
            tag: AsciiChar { pos },
            ch: self.frames@[self.cell_index(pos)].0,
            color: self.frames@[self.cell_index(pos)].1,
        }
    }

    /// The glyphs of the current frame, column by column and from the top
    /// of each column down.
    pub fn glyphs(&self) -> (glyphs: Vec<AsciiGlyph>)
        requires
            self.frame_held(),
        ensures
            glyphs@.len() == self.frame_size.x * self.frame_size.y,
            forall|k: int|
                0 <= k < glyphs@.len() ==> #[trigger] glyphs@[k] == self.glyph_at(
                    k / (self.frame_size.y as int),
                    k % (self.frame_size.y as int),
                ),
    {
        let w: u32 = self.frame_size.x;
        let h: u32 = self.frame_size.y;
        let mut list: Vec<AsciiGlyph> = Vec::new();
        let mut x: u32 = 0;
        assert(0 * h == 0) by (nonlinear_arith);
        while x < w
            invariant
                x <= w,
                w == self.frame_size.x,
                h == self.frame_size.y,
                self.frame_held(),
                list@.len() == x * h,
                forall|k: int|
                    0 <= k < list@.len() ==> #[trigger] list@[k] == self.glyph_at(
                        k / (h as int),
                        k % (h as int),
                    ),
            decreases w - x,
        {
            let ghost start: int = x * h;
            let mut y: u32 = 0;
            while y < h
                invariant
                    x < w,
                    y <= h,
                    w == self.frame_size.x,
                    h == self.frame_size.y,
                    self.frame_held(),
                    start == x * h,
                    list@.len() == start + y,
                    forall|k: int|
                        0 <= k < list@.len() ==> #[trigger] list@[k] == self.glyph_at(
                            k / (h as int),
                            k % (h as int),
                        ),
                decreases h - y,
            {
                let pos = UVec2 { x, y };
                assert(self.in_frame(pos));
                let cell = self.get_ascii_char_at(&pos);
                let glyph = AsciiGlyph { tag: AsciiChar { pos }, ch: cell.0, color: cell.1 };
                proof {
                    lemma_fundamental_div_mod_converse(start + y, h as int, x as int, y as int);
                    assert(glyph == self.glyph_at((start + y) / (h as int), (start + y) % (h as int)));
                }
                list.push(glyph);
                y = y + 1;
            }
            assert((x + 1) * h == x * h + h) by (nonlinear_arith);
            x = x + 1;
        }
        list
    }
}

/// A sheet made ready to be shown: the animation that plays it and the
/// glyphs of its first frame.
pub struct SpawnedAnimation {
    pub animation: AsciiAnimation,
    pub glyphs: Vec<AsciiGlyph>,
}

/// Prepares a sheet for the screen: the animation that plays it, and one
/// glyph for each cell of its first frame, column by column.
pub fn spawn_ascii_animation(animation_asset: &AsciiAnimationAsset) -> (spawned: SpawnedAnimation)
    requires
        animation_asset.colors_readable(),
        animation_asset.frame_size.x * animation_asset.frame_size.y
            <= animation_asset.frames@.len(),
    ensures
        spawned.animation.frames@.len() == animation_asset.frames@.len(),
        forall|i: int|
            0 <= i < animation_asset.frames@.len() ==> #[trigger] spawned.animation.frames@[i]
                == animation_asset.cell(i),
        spawned.animation.current_frame == 0,
        spawned.animation.frame_num == animation_asset.frame_num,
        spawned.animation.frame_size == animation_asset.frame_size,
        spawned.animation.frame_time == fresh_timer(animation_asset.frame_time, true),
        spawned.glyphs@.len() == animation_asset.frame_size.x * animation_asset.frame_size.y,
        forall|k: int|
            0 <= k < spawned.glyphs@.len() ==> #[trigger] spawned.glyphs@[k]
                == spawned.animation.glyph_at(
                k / (animation_asset.frame_size.y as int),
                k % (animation_asset.frame_size.y as int),
            ),
{
    let animation = animation_asset.get_component();
    proof {
        let w = animation.frame_size.x as int;
        let h = animation.frame_size.y as int;
        assert forall|pos: UVec2| animation.in_frame(pos) implies 0 <= #[trigger] animation.cell_index(
            pos,
        ) < animation.frames@.len() by {
            let x = pos.x as int;
            let y = pos.y as int;
            assert(0 <= x + y * w < w * h && 0 * w * h == 0) by (nonlinear_arith)
                requires
                    0 <= x < w,
                    0 <= y < h,
            ;
        }
    }
    let glyphs = animation.glyphs();
    SpawnedAnimation { animation, glyphs }
}

impl AsciiAnimationAsset {
    /// Every colour text holds six bytes after its leading `#`s.
    pub open spec fn colors_readable(&self) -> bool {
        forall|i: int|
            0 <= i < self.frames@.len() ==> leading_hashes(
                encode_utf8((#[trigger] self.frames@[i]).1@),
            ) + 6 <= encode_utf8(self.frames@[i].1@).len()
    }

    /// The cell that the stored cell `i` becomes when the sheet is played.
    pub open spec fn cell(&self, i: int) -> (char, Rgb) {
        (self.frames@[i].0, spec_color_from_hex(encode_utf8(self.frames@[i].1@)))
    }

    /// The animation that plays this sheet: it starts at the first frame,
    /// with a repeating frame clock that has not run yet.
    pub fn get_component(&self) -> (animation: AsciiAnimation)
        requires
            self.colors_readable(),
        ensures
            animation.frames@.len() == self.frames@.len(),
            forall|i: int|
                0 <= i < self.frames@.len() ==> #[trigger] animation.frames@[i] == self.cell(i),
            animation.current_frame == 0,
            animation.frame_num == self.frame_num,
            animation.frame_size == self.frame_size,
            animation.frame_time == fresh_timer(self.frame_time, true),
    {
        let mut frames: Vec<(char, Rgb)> = Vec::new();
        let mut i: usize = 0;
        while i < self.frames.len()
            invariant
                i <= self.frames@.len(),
                self.colors_readable(),
                frames@.len() == i,
                forall|j: int| 0 <= j < i ==> #[trigger] frames@[j] == self.cell(j),
            decreases self.frames@.len() - i,
        {
            let entry = &self.frames[i];
            let color = color_from_hex(entry.1.as_str());
            frames.push((entry.0, color));
            i = i + 1;
        }
        AsciiAnimation {
            frames,
            current_frame: 0,
            frame_num: self.frame_num,
            frame_size: self.frame_size,
            frame_time: new_timer(self.frame_time, true),
        }
    }
}

} // verus!
