use crate::ascii_animation::{
    frame_after, frame_before, hex_pair, parse_hex_pair, spec_color_from_hex, AsciiAnimation, Rgb,
};
use crate::timer::{just_finished, tick, ticked, timer_just_finished};
use core::time::Duration;
use vstd::prelude::*;
use vstd::string::*;
use vstd::utf8::encode_utf8;

verus! {

/// Phase of the sheet editor.
#[derive(Debug, Clone, Copy, PartialEq, Eq, Hash, Structural)]
pub enum EditorState {
    Loading,
    MainMenu,
}

impl Default for EditorState {
    fn default() -> (state: EditorState)
        ensures
            state == EditorState::Loading,
    {
        EditorState::Loading
    }
}

/// The colour that six bytes of text name, two each for red, green and
/// blue; nothing where the text is not six bytes long or a channel is no
/// hexadecimal number.
pub open spec fn spec_parse_hex_color(bytes: Seq<u8>) -> Result<Rgb, ()> {
    if bytes.len() != 6 {
        Err(())
    } else {
        match (hex_pair(bytes[0], bytes[1]), hex_pair(bytes[2], bytes[3]), hex_pair(bytes[4], bytes[5])) {
            (Some(r), Some(g), Some(b)) => Ok(Rgb { r, g, b }),
            _ => Err(()),
        }
    }
}

/// Reads a colour such as `ff8800`, strictly.
pub fn parse_hex_color(hex: &str) -> (color: Result<Rgb, ()>)
    ensures
        color == spec_parse_hex_color(encode_utf8(hex@)),
{
    let bytes = hex.as_bytes();
    if bytes.len() != 6 {
        return Err(());
    }
    match parse_hex_pair(bytes[0], bytes[1]) {
        None => Err(()),
        Some(r) => match parse_hex_pair(bytes[2], bytes[3]) {
            None => Err(()),
            Some(g) => match parse_hex_pair(bytes[4], bytes[5]) {
                None => Err(()),
                Some(b) => Ok(Rgb { r, g, b }),
            },
        },
    }
}

/// A text that the strict reader accepts is read alike by the lenient
/// reader of sheets.
pub proof fn lemma_strict_color_is_lenient_color(bytes: Seq<u8>, color: Rgb)
    requires
        spec_parse_hex_color(bytes) == Ok::<Rgb, ()>(color),
    ensures
        spec_color_from_hex(bytes) == color,
{
    assert(bytes[0] != 35);
    assert(bytes.skip(0) =~= bytes);
}

/// The colour field of the editor: the text typed so far, and whether the
/// field takes the keys.
pub struct ColorInput {
    pub value: String,
    pub active: bool,
}

/// The glyph field of the editor: the glyph typed last, and whether the
/// field takes the keys.
pub struct CharInput {
    pub value: String,
    pub active: bool,
}

/// What the editor paints with.
#[derive(Debug, Clone, Copy, PartialEq, Eq, Structural)]
pub struct Brush {
    pub ch: char,
    pub color: Rgb,
}

/// A key that went down.
pub enum KeyPress {
    Character(String),
    Backspace,
    Other,
}

/// Whether a character is a hexadecimal digit.
pub open spec fn is_hex_char(c: char) -> bool {
    ('0' <= c <= '9') || ('a' <= c <= 'f') || ('A' <= c <= 'F')
}

/// Whether a text is made of hexadecimal digits alone.
pub open spec fn all_hex(text: Seq<char>) -> bool {
    forall|i: int| 0 <= i < text.len() ==> is_hex_char(#[trigger] text[i])
}

fn is_all_hex(text: &str) -> (all: bool)
    ensures
        all == all_hex(text@),
{
    let len = text.unicode_len();
    let mut i: usize = 0;
    while i < len
        invariant
            i <= len,
            len == text@.len(),
            forall|j: int| 0 <= j < i ==> is_hex_char(#[trigger] text@[j]),
        decreases len - i,
    {
        let c = text.get_char(i);
        if !(('0' <= c && c <= '9') || ('a' <= c && c <= 'f') || ('A' <= c && c <= 'F')) {
            return false;
        }
        i = i + 1;
    }
    true
}

/// One key in the colour field. Hexadecimal digits are taken while the
/// text is shorter than six bytes; backspace drops the last character;
/// other keys do nothing. Returns whether the key was taken.
pub fn color_input(value: &mut String, key: &KeyPress) -> (changed: bool)
    ensures
        match *key {
            KeyPress::Character(typed) => {
                &&& changed == (encode_utf8(old(value)@).len() < 6 && all_hex(typed@))
                &&& final(value)@ == (if changed {
                    old(value)@ + typed@
                } else {
                    old(value)@
                })
            },
            KeyPress::Backspace => {
                &&& changed
                &&& final(value)@ == (if old(value)@.len() > 0 {
                    old(value)@.drop_last()
                } else {
                    old(value)@
                })
            },
            KeyPress::Other => !changed && final(value)@ == old(value)@,
        },
{
    match key {
        KeyPress::Character(typed) => {
            if value.as_str().as_bytes().len() < 6 && is_all_hex(typed.as_str()) {
                value.append(typed.as_str());
                true
            } else {
                false
            }
        },
        KeyPress::Backspace => {
            value.pop();
            true
        },
        KeyPress::Other => false,
    }
}

/// One key in the glyph field. The first character of what was typed
/// becomes the glyph; backspace empties the field and leaves a blank as
/// the glyph; other keys do nothing. Returns whether the key was taken.
pub fn char_input(value: &mut String, ch: &mut char, key: &KeyPress) -> (changed: bool)
    ensures
        match *key {
            KeyPress::Character(typed) => {
                &&& changed == (typed@.len() > 0)
                &&& final(value)@ == (if changed {
                    seq![typed@[0]]
                } else {
                    old(value)@
                })
                &&& *final(ch) == (if changed {
                    typed@[0]
                } else {
                    *old(ch)
                })
            },
            KeyPress::Backspace => changed && final(value)@ == Seq::<char>::empty() && *final(ch)
                == ' ',
            KeyPress::Other => !changed && final(value)@ == old(value)@ && *final(ch) == *old(ch),
        },
{
    match key {
        KeyPress::Character(typed) => {
            if typed.as_str().unicode_len() > 0 {
                let c = typed.as_str().get_char(0);
                let mut text = String::new();
                text.push(c);
                assert(text@ =~= seq![typed@[0]]);
                *value = text;
                *ch = c;
                true
            } else {
                false
            }
        },
        KeyPress::Backspace => {
            value.clear();
            *ch = ' ';
            true
        },
        KeyPress::Other => false,
    }
}

/// What the pointer does to a button.
#[derive(Debug, Clone, Copy, PartialEq, Eq, Structural)]
pub enum Interaction {
    Pressed,
    Hovered,
    /// The pointer is elsewhere.
    Away,
}

/// The shade of a button's background.
#[derive(Debug, Clone, Copy, PartialEq, Eq, Structural)]
pub enum Shade {
    Normal,
    Hovered,
    Pressed,
}

/// What a button is: the colour field, the glyph field, a colour sample or
/// a glyph sample.
#[derive(Debug, Clone, Copy, PartialEq, Eq, Structural)]
pub struct ButtonTarget {
    pub color_input_box: bool,
    pub char_input_box: bool,
    pub color_sample: Option<Rgb>,
    pub char_sample: Option<Brush>,
}

/// A sample to add to the palette.
#[derive(Debug, Clone, Copy, PartialEq, Eq, Structural)]
pub enum Sample {
    Color(Rgb),
    Glyph(Brush),
}

/// What the editor's fields hold between frames, as far as buttons change
/// it.
#[derive(Debug, Clone, Copy, PartialEq, Eq, Structural)]
pub struct Palette {
    pub color_active: bool,
    pub char_active: bool,
    pub brush: Brush,
}

/// What is to be drawn after a button was handled.
#[derive(Debug, Clone, Copy, PartialEq, Eq, Structural)]
pub struct ButtonEffect {
    pub background: Option<Shade>,
    pub sample: Option<Sample>,
}

/// The palette after the pointer did `interaction` to `target`. `typed` is
/// what the strict reader made of the colour field.
pub open spec fn palette_after(
    interaction: Interaction,
    target: ButtonTarget,
    typed: Result<Rgb, ()>,
    palette: Palette,
) -> Palette {
    let on_sample = target.color_sample.is_some() || target.char_sample.is_some();
    match interaction {
        Interaction::Pressed => if target.color_input_box {
            Palette { color_active: true, char_active: false, brush: palette.brush }
        } else if target.char_input_box {
            Palette { color_active: false, char_active: true, brush: palette.brush }
        } else if let Some(color) = target.color_sample {
            Palette { brush: Brush { ch: palette.brush.ch, color }, ..palette }
        } else if let Some(brush) = target.char_sample {
            Palette { brush, ..palette }
        } else {
            palette
        },
        Interaction::Hovered => if on_sample {
            palette
        } else if target.char_input_box {
            Palette { color_active: false, char_active: true, brush: palette.brush }
        } else if target.color_input_box {
            Palette { color_active: true, char_active: false, brush: palette.brush }
        } else {
            palette
        },
        Interaction::Away => if on_sample {
            palette
        } else {
            Palette { color_active: false, char_active: false, brush: palette.brush }
        },
    }
}

/// What is drawn after the pointer did `interaction` to `target`: a field
/// that is pressed darkens, and adds a sample to its palette (the colour
/// field only where its text is a colour); anything but a sample lightens
/// under the pointer and goes back to normal without it.
pub open spec fn effect_of(
    interaction: Interaction,
    target: ButtonTarget,
    typed: Result<Rgb, ()>,
    palette: Palette,
) -> ButtonEffect {
    let on_sample = target.color_sample.is_some() || target.char_sample.is_some();
    match interaction {
        Interaction::Pressed => ButtonEffect {
            background: if target.color_input_box || target.char_input_box {
                Some(Shade::Pressed)
            } else {
                None
            },
            sample: if target.color_input_box {
                match typed {
                    Ok(color) => Some(Sample::Color(color)),
                    Err(_) => None,
                }
            } else if target.char_input_box {
                Some(Sample::Glyph(palette.brush))
            } else {
                None
            },
        },
        Interaction::Hovered => ButtonEffect {
            background: if on_sample {
                None
            } else {
                Some(Shade::Hovered)
            },
            sample: None,
        },
        Interaction::Away => ButtonEffect {
            background: if on_sample {
                None
            } else {
                Some(Shade::Normal)
            },
            sample: None,
        },
    }
}

/// Handles what the pointer did to one button.
pub fn button_system(
    interaction: Interaction,
    target: ButtonTarget,
    color_value: &str,
    palette: &mut Palette,
) -> (effect: ButtonEffect)
    ensures
        *final(palette) == palette_after(
            interaction,
            target,
            spec_parse_hex_color(encode_utf8(color_value@)),
            *old(palette),
        ),
        effect == effect_of(
            interaction,
            target,
            spec_parse_hex_color(encode_utf8(color_value@)),
            *old(palette),
        ),
{
    let on_sample = target.color_sample.is_some() || target.char_sample.is_some();
    match interaction {
        Interaction::Pressed => {
            let background = if target.color_input_box || target.char_input_box {
                Some(Shade::Pressed)
            } else {
                None
            };
            if target.color_input_box {
                palette.color_active = true;
                palette.char_active = false;
                let sample = match parse_hex_color(color_value) {
                    Ok(color) => Some(Sample::Color(color)),
                    Err(_) => None,
                };
                return ButtonEffect { background, sample };
            }
            if target.char_input_box {
                palette.char_active = true;
                palette.color_active = false;
                return ButtonEffect { background, sample: Some(Sample::Glyph(palette.brush)) };
            }
            if let Some(color) = target.color_sample {
                palette.brush.color = color;
            } else if let Some(brush) = target.char_sample {
                palette.brush = brush;
            }
            ButtonEffect { background, sample: None }
        },
        Interaction::Hovered => {
            if on_sample {
                return ButtonEffect { background: None, sample: None };
            }
            if target.color_input_box {
                palette.color_active = true;
                palette.char_active = false;
            }
            if target.char_input_box {
                palette.char_active = true;
                palette.color_active = false;
            }
            ButtonEffect { background: Some(Shade::Hovered), sample: None }
        },
        Interaction::Away => {
            if on_sample {
                return ButtonEffect { background: None, sample: None };
            }
            palette.color_active = false;
            palette.char_active = false;
            ButtonEffect { background: Some(Shade::Normal), sample: None }
        },
    }
}

/// An animation in the editor: it plays only while `playing` is set.
pub struct EditAsciiAnimation {
    pub animation: AsciiAnimation,
    pub playing: bool,
}

/// The keys that drive the editor's animation, as one frame sees them.
#[derive(Debug, Clone, Copy, PartialEq, Eq, Structural)]
pub struct PlaybackKeys {
    pub space: bool,
    pub right: bool,
    pub left: bool,
}

impl EditAsciiAnimation {
    /// Whether the animation plays once the keys are handled: space turns
    /// playing on or off, and a step by hand stops it.
    pub open spec fn plays_after(&self, keys: PlaybackKeys) -> bool {
        if keys.right || keys.left {
            false
        } else {
            self.playing != keys.space
        }
    }

    /// The frame once the keys are handled, before any time passes.
    pub open spec fn frame_after_keys(&self, keys: PlaybackKeys) -> int {
        let current = self.animation.current_frame as int;
        let frames = self.animation.frame_num as int;
        let stepped = if keys.right {
            frame_after(current, frames)
        } else {
            current
        };
        if keys.left {
            frame_before(stepped, frames)
        } else {
            stepped
        }
    }

    /// One frame of the editor's animation: space starts and stops it, the
    /// right and left keys stop it and step one frame on or back, and
    /// while it plays, `delta` passes on its frame clock. Returns whether
    /// the frame shown has to be drawn anew.
    pub fn editor_play_ascii_animation(&mut self, keys: PlaybackKeys, delta: Duration) -> (changed:
        bool)
        requires
            keys.right ==> old(self).animation.frame_num > 0 && old(self).animation.current_frame
                < usize::MAX,
            !keys.right && keys.left && old(self).animation.current_frame == 0 ==> old(
                self,
            ).animation.frame_num > 0,
            old(self).plays_after(keys) ==> old(self).animation.frame_num > 0 && old(
                self,
            ).animation.current_frame < usize::MAX,
        ensures
            final(self).playing == old(self).plays_after(keys),
            changed == (keys.right || keys.left || (final(self).playing && timer_just_finished(
                final(self).animation.frame_time,
            ))),
            final(self).animation.current_frame == (if final(self).playing && changed {
                frame_after(old(self).frame_after_keys(keys), old(self).animation.frame_num as int)
            } else {
                old(self).frame_after_keys(keys)
            }),
            final(self).animation.frame_time == (if final(self).playing {
                ticked(old(self).animation.frame_time, delta)
            } else {
                old(self).animation.frame_time
            }),
            final(self).animation.frames == old(self).animation.frames,
            final(self).animation.frame_num == old(self).animation.frame_num,
            final(self).animation.frame_size == old(self).animation.frame_size,
            old(self).animation.wf() ==> final(self).animation.wf(),
    {
        let mut changed = false;
        if keys.space {
            self.playing = !self.playing;
        }
        if keys.right {
            self.playing = false;
            self.animation.next_frame();
            changed = true;
        }
        if keys.left {
            self.playing = false;
            self.animation.previous_frame();
            changed = true;
        }
        if self.playing {
            tick(&mut self.animation.frame_time, delta);
            if just_finished(&self.animation.frame_time) {
                self.animation.next_frame();
                changed = true;
            }
        }
        changed
    }
}

} // verus!
