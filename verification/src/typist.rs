//! The typist: turns standalone jamo letters into the key events and pauses
//! that type them on a two-set Korean keyboard layout.

use vstd::prelude::*;
use vstd::string::StrSliceExecFns;

verus! {

/// Virtual key of the backspace key.
pub const VK_BACK: u16 = 0x08;

/// Virtual key of the shift key.
pub const VK_SHIFT: u16 = 0x10;

/// Virtual key of the control key.
pub const VK_CONTROL: u16 = 0x11;

/// Virtual key of the left arrow key.
pub const VK_LEFT: u16 = 0x25;

/// Virtual key of the letter C.
pub const VK_C: u16 = 0x43;

/// Pause after each key event of a combination, in milliseconds.
pub const COMBINATION_PAUSE_MS: u64 = 10;

/// Pause after each key of an ordinary letter, in milliseconds.
pub const KEY_PAUSE_MS: u64 = 15;

/// Pause after a whole letter, in milliseconds.
pub const LETTER_PAUSE_MS: u64 = 30;

/// Pause that lets the clipboard and the foreground application settle, in
/// milliseconds.
pub const SETTLE_PAUSE_MS: u64 = 50;

/// Pause after the copy, in milliseconds: longer than the settle pause,
/// since the clipboard changes hands then.
pub const COPY_PAUSE_MS: u64 = 100;

/// One thing for the caller to do, in the order handed out.
#[derive(Clone, Copy, Debug, PartialEq, Eq, Structural)]
pub enum Action {
    /// Inject a key press (`down`) or release.
    Key { vk: u16, down: bool },
    /// Wait for this many milliseconds.
    Pause { millis: u64 },
    /// Read the clipboard's text and report it back.
    ReadClipboard,
    /// Empty the clipboard.
    ClearClipboard,
    /// Put the saved text back on the clipboard.
    RestoreClipboard,
}

/// The five tense consonants, typed with shift held.
pub open spec fn is_tense(j: char) -> bool {
    j == '\u{3132}' || j == '\u{3138}' || j == '\u{3143}' || j == '\u{3146}' || j == '\u{3149}'
}

/// The key that, with shift held, types the tense consonant `j`.
pub open spec fn tense_base_key(j: char) -> Option<u16> {
    match j {
        '\u{3132}' => Some(0x52u16),
        '\u{3138}' => Some(0x45u16),
        '\u{3143}' => Some(0x51u16),
        '\u{3146}' => Some(0x54u16),
        '\u{3149}' => Some(0x57u16),
        _ => None,
    }
}

/// The keys that type the letter `j` without a modifier, in order.
pub open spec fn jamo_keys(j: char) -> Option<Seq<u16>> {
    match j {
        // consonants: r s e f a q t d w c z x v g
        '\u{3131}' => Some(seq![0x52u16]),
        '\u{3134}' => Some(seq![0x53u16]),
        '\u{3137}' => Some(seq![0x45u16]),
        '\u{3139}' => Some(seq![0x46u16]),
        '\u{3141}' => Some(seq![0x41u16]),
        '\u{3142}' => Some(seq![0x51u16]),
        '\u{3145}' => Some(seq![0x54u16]),
        '\u{3147}' => Some(seq![0x44u16]),
        '\u{3148}' => Some(seq![0x57u16]),
        '\u{314A}' => Some(seq![0x43u16]),
        '\u{314B}' => Some(seq![0x5Au16]),
        '\u{314C}' => Some(seq![0x58u16]),
        '\u{314D}' => Some(seq![0x56u16]),
        '\u{314E}' => Some(seq![0x47u16]),
        // vowels: k i j u h y n b m l
        '\u{314F}' => Some(seq![0x4Bu16]),
        '\u{3151}' => Some(seq![0x49u16]),
        '\u{3153}' => Some(seq![0x4Au16]),
        '\u{3155}' => Some(seq![0x55u16]),
        '\u{3157}' => Some(seq![0x48u16]),
        '\u{315B}' => Some(seq![0x59u16]),
        '\u{315C}' => Some(seq![0x4Eu16]),
        '\u{3160}' => Some(seq![0x42u16]),
        '\u{3161}' => Some(seq![0x4Du16]),
        '\u{3163}' => Some(seq![0x4Cu16]),
        _ => None,
    }
}

/// A key combination as actions: each event, then a short pause.
pub open spec fn combination_steps(keys: Seq<(u16, bool)>) -> Seq<Action> {
    Seq::new(
        2 * keys.len(),
        |i: int|
            if i % 2 == 0 {
                Action::Key { vk: keys[i / 2].0, down: keys[i / 2].1 }
            } else {
                Action::Pause { millis: COMBINATION_PAUSE_MS }
            },
    )
}

/// Keys tapped one after the other: press, release, pause, for each.
pub open spec fn tap_steps(keys: Seq<u16>) -> Seq<Action> {
    Seq::new(
        3 * keys.len(),
        |i: int|
            if i % 3 == 0 {
                Action::Key { vk: keys[i / 3], down: true }
            } else if i % 3 == 1 {
                Action::Key { vk: keys[i / 3], down: false }
            } else {
                Action::Pause { millis: KEY_PAUSE_MS }
            },
    )
}

/// The shift combination that types a tense consonant on base key `vk`.
pub open spec fn shifted(vk: u16) -> Seq<(u16, bool)> {
    seq![(VK_SHIFT, true), (vk, true), (vk, false), (VK_SHIFT, false)]
}

/// The actions that type one letter: a tense consonant as a shift
/// combination, any other letter with keys as taps, each followed by the
/// pause after a letter; nothing for a letter without keys.
pub open spec fn letter_steps(j: char) -> Seq<Action> {
    if is_tense(j) {
        match tense_base_key(j) {
            Some(vk) => combination_steps(shifted(vk)).push(
                Action::Pause { millis: LETTER_PAUSE_MS },
            ),
            None => Seq::empty(),
        }
    } else {
        match jamo_keys(j) {
            Some(keys) => tap_steps(keys).push(Action::Pause { millis: LETTER_PAUSE_MS }),
            None => Seq::empty(),
        }
    }
}

/// The actions that type `letters`, one letter after the other.
pub open spec fn sequence_steps(letters: Seq<char>) -> Seq<Action>
    decreases letters.len(),
{
    if letters.len() == 0 {
        Seq::empty()
    } else {
        sequence_steps(letters.drop_last()) + letter_steps(letters.last())
    }
}

/// The keys of an ordinary letter; `None` for a letter that has none.
pub fn jamo_to_keys(j: char) -> (r: Option<Vec<u16>>)
    ensures
        r.is_some() == jamo_keys(j).is_some(),
        r matches Some(keys) ==> keys@ == jamo_keys(j).unwrap(),
{
    let key: u16 = match j {
        '\u{3131}' => 0x52,
        '\u{3134}' => 0x53,
        '\u{3137}' => 0x45,
        '\u{3139}' => 0x46,
        '\u{3141}' => 0x41,
        '\u{3142}' => 0x51,
        '\u{3145}' => 0x54,
        '\u{3147}' => 0x44,
        '\u{3148}' => 0x57,
        '\u{314A}' => 0x43,
        '\u{314B}' => 0x5A,
        '\u{314C}' => 0x58,
        '\u{314D}' => 0x56,
        '\u{314E}' => 0x47,
        '\u{314F}' => 0x4B,
        '\u{3151}' => 0x49,
        '\u{3153}' => 0x4A,
        '\u{3155}' => 0x55,
        '\u{3157}' => 0x48,
        '\u{315B}' => 0x59,
        '\u{315C}' => 0x4E,
        '\u{3160}' => 0x42,
        '\u{3161}' => 0x4D,
        '\u{3163}' => 0x4C,
        _ => {
            return None;
        },
    };
    let mut keys: Vec<u16> = Vec::new();
    keys.push(key);
    assert(keys@ =~= jamo_keys(j).unwrap());
    Some(keys)
}

/// The base key of a tense consonant; `None` for any other letter.
pub fn jamo_to_double_keys(j: char) -> (r: Option<u16>)
    ensures
        r == tense_base_key(j),
{
    match j {
        '\u{3132}' => Some(0x52),
        '\u{3138}' => Some(0x45),
        '\u{3143}' => Some(0x51),
        '\u{3146}' => Some(0x54),
        '\u{3149}' => Some(0x57),
        _ => None,
    }
}

/// Whether `j` is one of the five tense consonants.
pub fn is_double_consonant(j: char) -> (r: bool)
    ensures
        r == is_tense(j),
{
    j == '\u{3132}' || j == '\u{3138}' || j == '\u{3143}' || j == '\u{3146}' || j == '\u{3149}'
}

/// Lays a key combination out as actions: every event in order, a short
/// pause after each.
pub fn send_key_combination(keys: &[(u16, bool)]) -> (steps: Vec<Action>)
    ensures
        steps@ == combination_steps(keys@),
{
    let mut steps: Vec<Action> = Vec::new();
    let mut i: usize = 0;
    while i < keys.len()
        invariant
            i <= keys.len(),
            steps@ == combination_steps(keys@.take(i as int)),
        decreases keys.len() - i,
    {
        let (vk, down) = keys[i];
        steps.push(Action::Key { vk, down });
        steps.push(Action::Pause { millis: COMBINATION_PAUSE_MS });
        i += 1;
        assert(steps@ =~= combination_steps(keys@.take(i as int)));
    }
    assert(keys@.take(keys.len() as int) =~= keys@);
    steps
}

/// Lays the taps of an ordinary letter's keys out as actions.
fn tap_keys(keys: &Vec<u16>) -> (steps: Vec<Action>)
    ensures
        steps@ == tap_steps(keys@),
{
    let mut steps: Vec<Action> = Vec::new();
    let mut i: usize = 0;
    while i < keys.len()
        invariant
            i <= keys.len(),
            steps@ == tap_steps(keys@.take(i as int)),
        decreases keys.len() - i,
    {
        let vk = keys[i];
        steps.push(Action::Key { vk, down: true });
        steps.push(Action::Key { vk, down: false });
        steps.push(Action::Pause { millis: KEY_PAUSE_MS });
        i += 1;
        assert(steps@ =~= tap_steps(keys@.take(i as int)));
    }
    assert(keys@.take(keys.len() as int) =~= keys@);
    steps
}

/// The actions that type the single letter `j`.
pub fn type_letter(j: char) -> (steps: Vec<Action>)
    ensures
        steps@ == letter_steps(j),
        is_tense(j) ==> tense_base_key(j).is_some() && steps@ == tense_steps(
            tense_base_key(j).unwrap(),
        ),
{
    proof {
        if is_tense(j) {
            lemma_tense_letter_is_shifted(j);
        }
    }
    if is_double_consonant(j) {
        match jamo_to_double_keys(j) {
            Some(vk) => {
                let mut combo: Vec<(u16, bool)> = Vec::new();
                combo.push((VK_SHIFT, true));
                combo.push((vk, true));
                combo.push((vk, false));
                combo.push((VK_SHIFT, false));
                assert(combo@ =~= shifted(vk));
                let mut steps = send_key_combination(combo.as_slice());
                steps.push(Action::Pause { millis: LETTER_PAUSE_MS });
                steps
            },
            None => Vec::new(),
        }
    } else {
        match jamo_to_keys(j) {
            Some(keys) => {
                let mut steps = tap_keys(&keys);
                steps.push(Action::Pause { millis: LETTER_PAUSE_MS });
                steps
            },
            None => Vec::new(),
        }
    }
}

/// The actions that type `letters`: each letter's actions are complete
/// before the next letter's begin.
pub fn type_sequence(letters: &str) -> (steps: Vec<Action>)
    ensures
        steps@ == sequence_steps(letters@),
{
    let mut steps: Vec<Action> = Vec::new();
    let n = letters.unicode_len();
    let mut i: usize = 0;
    while i < n
        invariant
            n == letters@.len(),
            i <= n,
            steps@ == sequence_steps(letters@.take(i as int)),
        decreases n - i,
    {
        let mut next = type_letter(letters.get_char(i));
        proof {
            let upto = letters@.take(i + 1);
            assert(upto.drop_last() =~= letters@.take(i as int));
            assert(upto.last() == letters@[i as int]);
        }
        steps.append(&mut next);
        i += 1;
    }
    assert(letters@.take(n as int) =~= letters@);
    steps
}

/// What typing a tense consonant on base key `vk` comes to: shift goes down
/// before the base key and up after it, with a short pause after each event
/// and the pause after a letter at the end.
pub open spec fn tense_steps(vk: u16) -> Seq<Action> {
    seq![
        Action::Key { vk: VK_SHIFT, down: true },
        Action::Pause { millis: COMBINATION_PAUSE_MS },
        Action::Key { vk, down: true },
        Action::Pause { millis: COMBINATION_PAUSE_MS },
        Action::Key { vk, down: false },
        Action::Pause { millis: COMBINATION_PAUSE_MS },
        Action::Key { vk: VK_SHIFT, down: false },
        Action::Pause { millis: COMBINATION_PAUSE_MS },
        Action::Pause { millis: LETTER_PAUSE_MS },
    ]
}

/// A tense consonant is never typed by its base key alone: its actions are
/// shift down, base key down, base key up, shift up, in that order.
pub proof fn lemma_tense_letter_is_shifted(j: char)
    requires
        is_tense(j),
    ensures
        tense_base_key(j).is_some(),
        letter_steps(j) == tense_steps(tense_base_key(j).unwrap()),
{
    let vk = tense_base_key(j).unwrap();
    assert(letter_steps(j) =~= tense_steps(vk));
}

} // verus!
