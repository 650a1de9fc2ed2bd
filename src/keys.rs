//! Typing input: literal characters mixed with named key actions, and the
//! text a driver expects for them.
use vstd::prelude::*;
use crate::text::push_char;

verus! {

/// A named key action. The driver receives each as one character of the
/// Unicode private use area.
#[derive(Clone, Copy, Debug, PartialEq, Eq, Structural)]
pub enum Key {
    Null,
    Cancel,
    Help,
    Backspace,
    Tab,
    Clear,
    Return,
    Enter,
    Shift,
    Control,
    Alt,
    Pause,
    Escape,
    Space,
    PageUp,
    PageDown,
    End,
    Home,
    Left,
    Up,
    Right,
    Down,
    Insert,
    Delete,
    Meta,
}

/// The character that stands for a key action on the wire.
pub open spec fn key_code(k: Key) -> char {
    match k {
        Key::Null => '\u{E000}',
        Key::Cancel => '\u{E001}',
        Key::Help => '\u{E002}',
        Key::Backspace => '\u{E003}',
        Key::Tab => '\u{E004}',
        Key::Clear => '\u{E005}',
        Key::Return => '\u{E006}',
        Key::Enter => '\u{E007}',
        Key::Shift => '\u{E008}',
        Key::Control => '\u{E009}',
        Key::Alt => '\u{E00A}',
        Key::Pause => '\u{E00B}',
        Key::Escape => '\u{E00C}',
        Key::Space => '\u{E00D}',
        Key::PageUp => '\u{E00E}',
        Key::PageDown => '\u{E00F}',
        Key::End => '\u{E010}',
        Key::Home => '\u{E011}',
        Key::Left => '\u{E012}',
        Key::Up => '\u{E013}',
        Key::Right => '\u{E014}',
        Key::Down => '\u{E015}',
        Key::Insert => '\u{E016}',
        Key::Delete => '\u{E017}',
        Key::Meta => '\u{E03D}',
    }
}

impl Key {
    /// The character that stands for this key action on the wire.
    pub fn code(&self) -> (c: char)
        ensures
            c == key_code(*self),
    {
        match self {
            Key::Null => '\u{E000}',
            Key::Cancel => '\u{E001}',
            Key::Help => '\u{E002}',
            Key::Backspace => '\u{E003}',
            Key::Tab => '\u{E004}',
            Key::Clear => '\u{E005}',
            Key::Return => '\u{E006}',
            Key::Enter => '\u{E007}',
            Key::Shift => '\u{E008}',
            Key::Control => '\u{E009}',
            Key::Alt => '\u{E00A}',
            Key::Pause => '\u{E00B}',
            Key::Escape => '\u{E00C}',
            Key::Space => '\u{E00D}',
            Key::PageUp => '\u{E00E}',
            Key::PageDown => '\u{E00F}',
            Key::End => '\u{E010}',
            Key::Home => '\u{E011}',
            Key::Left => '\u{E012}',
            Key::Up => '\u{E013}',
            Key::Right => '\u{E014}',
            Key::Down => '\u{E015}',
            Key::Insert => '\u{E016}',
            Key::Delete => '\u{E017}',
            Key::Meta => '\u{E03D}',
        }
    }
}

/// One unit of typing input.
#[derive(Clone, Copy, Debug, PartialEq, Eq, Structural)]
pub enum TypingUnit {
    /// A character typed as it is.
    Text(char),
    /// A key action, such as pressing a modifier.
    Press(Key),
}

/// The character that a unit becomes on the wire.
pub open spec fn unit_char(u: TypingUnit) -> char {
    match u {
        TypingUnit::Text(c) => c,
        TypingUnit::Press(k) => key_code(k),
    }
}

/// The text a driver receives for a sequence of units: each unit's character,
/// in order.
pub open spec fn rendered(units: Seq<TypingUnit>) -> Seq<char> {
    Seq::new(units.len(), |i: int| unit_char(units[i]))
}

/// A character typed as it is.
pub open spec fn typed_char(c: char) -> TypingUnit {
    TypingUnit::Text(c)
}

/// The units of a plain text: every character typed as it is.
pub open spec fn text_units(cs: Seq<char>) -> Seq<TypingUnit> {
    Seq::new(cs.len(), |i: int| typed_char(cs[i]))
}

/// An ordered sequence of typing units.
#[derive(Clone, Debug, PartialEq)]
pub struct TypingData {
    units: Vec<TypingUnit>,
}

impl View for TypingData {
    type V = Seq<TypingUnit>;

    closed spec fn view(&self) -> Seq<TypingUnit> {
        self.units@
    }
}

impl TypingData {
    /// Typing input with no units.
    pub fn new() -> (r: TypingData)
        ensures
            r@ == Seq::<TypingUnit>::empty(),
    {
        TypingData { units: Vec::new() }
    }

    /// Typing input that types `s` character by character, with no key
    /// actions.
    pub fn from_text(s: &str) -> (r: TypingData)
        ensures
            r@ == text_units(s@),
    {
        let mut r = TypingData::new();
        r.push_text(s);
        r
    }

    /// Typing input made of one key action.
    pub fn from_key(k: Key) -> (r: TypingData)
        ensures
            r@ == seq![TypingUnit::Press(k)],
    {
        let mut r = TypingData::new();
        r.push_key(k);
        r
    }

    /// Appends a key action.
    pub fn push_key(&mut self, k: Key)
        ensures
            final(self)@ == old(self)@.push(TypingUnit::Press(k)),
    {
        self.units.push(TypingUnit::Press(k));
    }

    /// Appends the characters of `s`, each typed as it is.
    pub fn push_text(&mut self, s: &str)
        ensures
            final(self)@ == old(self)@ + text_units(s@),
    {
        let n = s.unicode_len();
        let ghost start = self@;
        let mut i: usize = 0;
        proof {
            assert(s@.subrange(0, 0).len() == 0);
            assert(text_units(s@.subrange(0, 0)).len() == 0);
            assert(text_units(s@.subrange(0, 0)) =~= Seq::<TypingUnit>::empty());
            assert(self@ =~= start + text_units(s@.subrange(0, 0)));
        }
        while i < n
            invariant
                n == s@.len(),
                i <= n,
                self@ =~= start + text_units(s@.subrange(0, i as int)),
            decreases n - i,
        {
            let c = s.get_char(i);
            self.units.push(TypingUnit::Text(c));
            i = i + 1;
            proof {
                assert(s@.subrange(0, i as int) =~= s@.subrange(0, i - 1).push(c));
                assert(text_units(s@.subrange(0, i as int)) =~= text_units(s@.subrange(0, i - 1)).push(TypingUnit::Text(c)));
            }
        }
        proof {
            assert(s@.subrange(0, n as int) =~= s@);
        }
    }

    /// The units in order.
    pub fn units(&self) -> (r: &Vec<TypingUnit>)
        ensures
            r@ == self@,
    {
        &self.units
    }

    /// The text a driver receives for this input: literal characters as they
    /// are and each key action as its code, in order.
    pub fn render(&self) -> (r: String)
        ensures
            r@ == rendered(self@),
    {
        let mut r = String::new();
        let mut i: usize = 0;
        while i < self.units.len()
            invariant
                i <= self.units@.len(),
                r@ =~= rendered(self.units@.subrange(0, i as int)),
            decreases self.units@.len() - i,
        {
            let u = self.units[i];
            let c = match u {
                TypingUnit::Text(c) => c,
                TypingUnit::Press(k) => k.code(),
            };
            push_char(&mut r, c);
            i = i + 1;
            proof {
                assert(self.units@.subrange(0, i as int) =~= self.units@.subrange(0, i - 1).push(u));
            }
        }
        proof {
            assert(self.units@.subrange(0, i as int) =~= self.units@);
        }
        r
    }
}

} // verus!
