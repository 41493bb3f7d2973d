use jamo_backspace::typist::{
    is_double_consonant, jamo_to_double_keys, jamo_to_keys, send_key_combination, type_letter,
    type_sequence, Action, VK_SHIFT,
};

fn key(vk: u16, down: bool) -> Action {
    Action::Key { vk, down }
}

fn pause(millis: u64) -> Action {
    Action::Pause { millis }
}

#[test]
fn ordinary_letters_have_one_key() {
    assert_eq!(jamo_to_keys('\u{3131}'), Some(vec![0x52]));
    assert_eq!(jamo_to_keys('\u{3134}'), Some(vec![0x53]));
    assert_eq!(jamo_to_keys('\u{314E}'), Some(vec![0x47]));
    assert_eq!(jamo_to_keys('\u{314F}'), Some(vec![0x4B]));
    assert_eq!(jamo_to_keys('\u{3151}'), Some(vec![0x49]));
    assert_eq!(jamo_to_keys('\u{3160}'), Some(vec![0x42]));
    assert_eq!(jamo_to_keys('\u{3163}'), Some(vec![0x4C]));
}

#[test]
fn letters_without_a_key() {
    assert_eq!(jamo_to_keys('\u{3132}'), None);
    assert_eq!(jamo_to_keys('\u{3150}'), None);
    assert_eq!(jamo_to_keys('a'), None);
}

#[test]
fn tense_consonants_and_their_base_keys() {
    let tense = [
        ('\u{3132}', 0x52u16),
        ('\u{3138}', 0x45),
        ('\u{3143}', 0x51),
        ('\u{3146}', 0x54),
        ('\u{3149}', 0x57),
    ];
    for (j, vk) in tense {
        assert!(is_double_consonant(j));
        assert_eq!(jamo_to_double_keys(j), Some(vk));
    }
    assert!(!is_double_consonant('\u{3131}'));
    assert!(!is_double_consonant('\u{314F}'));
    assert_eq!(jamo_to_double_keys('\u{3131}'), None);
}

#[test]
fn combination_pauses_after_each_event() {
    let steps = send_key_combination(&[(0x11, true), (0x43, true), (0x43, false), (0x11, false)]);
    assert_eq!(
        steps,
        vec![
            key(0x11, true),
            pause(10),
            key(0x43, true),
            pause(10),
            key(0x43, false),
            pause(10),
            key(0x11, false),
            pause(10),
        ]
    );
    assert_eq!(send_key_combination(&[]), Vec::new());
}

#[test]
fn tense_letter_is_typed_with_shift_held() {
    for j in ['\u{3132}', '\u{3138}', '\u{3143}', '\u{3146}', '\u{3149}'] {
        let vk = jamo_to_double_keys(j).unwrap();
        assert_eq!(
            type_letter(j),
            vec![
                key(VK_SHIFT, true),
                pause(10),
                key(vk, true),
                pause(10),
                key(vk, false),
                pause(10),
                key(VK_SHIFT, false),
                pause(10),
                pause(30),
            ]
        );
    }
}

#[test]
fn ordinary_letter_is_tapped() {
    assert_eq!(
        type_letter('\u{3131}'),
        vec![key(0x52, true), key(0x52, false), pause(15), pause(30)]
    );
}

#[test]
fn letter_without_keys_is_skipped() {
    assert_eq!(type_letter('\u{3150}'), Vec::new());
    assert_eq!(type_letter('x'), Vec::new());
    assert_eq!(
        type_sequence("\u{3150}\u{3131}"),
        vec![key(0x52, true), key(0x52, false), pause(15), pause(30)]
    );
}

#[test]
fn sequence_is_typed_letter_by_letter() {
    assert_eq!(
        type_sequence("\u{3132}\u{314F}"),
        vec![
            key(VK_SHIFT, true),
            pause(10),
            key(0x52, true),
            pause(10),
            key(0x52, false),
            pause(10),
            key(VK_SHIFT, false),
            pause(10),
            pause(30),
            key(0x4B, true),
            key(0x4B, false),
            pause(15),
            pause(30),
        ]
    );
    assert_eq!(type_sequence(""), Vec::new());
}
