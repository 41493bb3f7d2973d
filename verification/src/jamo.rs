//! The jamo engine: which letters remain to be typed again once a single
//! jamo has been taken off the end of a composed character.

use unicode_normalization::UnicodeNormalization;
use vstd::prelude::*;

verus! {

/// The canonical decomposition of `c`, as `unicode_normalization` computes it
/// from its Unicode tables.
pub uninterp spec fn canonical_decomposition(c: char) -> Seq<char>;

/// Whether `c` lies in the block of precomposed Hangul syllables.
pub open spec fn is_hangul_syllable(c: char) -> bool {
    '\u{AC00}' <= c <= '\u{D7A3}'
}

/// The conjoining jamo of a precomposed syllable, by the arithmetic of the
/// Hangul block: 588 syllables to a lead, 28 to a vowel, and the trailing
/// slot, where the syllable has one, last.
pub open spec fn hangul_parts(c: char) -> Seq<char> {
    let index = c as int - 0xAC00;
    let lead = (0x1100 + index / 588) as char;
    let vowel = (0x1161 + (index % 588) / 28) as char;
    let trailing = (0x11A7 + index % 28) as char;
    if index % 28 == 0 {
        seq![lead, vowel]
    } else {
        seq![lead, vowel, trailing]
    }
}

/// Whether `c` lies in the block of standalone (compatibility) jamo letters.
pub open spec fn is_standalone_jamo(c: char) -> bool {
    '\u{3131}' <= c <= '\u{318E}'
}

/// The typed form of a conjoining jamo: the standalone letter that one
/// physical key (with or without shift) produces. `None` where the table
/// has no entry.
pub open spec fn typed_form(c: char) -> Option<char> {
    match c {
        // lead consonants
        '\u{1100}' => Some('\u{3131}'),
        '\u{1101}' => Some('\u{3132}'),
        '\u{1102}' => Some('\u{3134}'),
        '\u{1103}' => Some('\u{3137}'),
        '\u{1104}' => Some('\u{3138}'),
        '\u{1105}' => Some('\u{3139}'),
        '\u{1106}' => Some('\u{3141}'),
        '\u{1107}' => Some('\u{3142}'),
        '\u{1108}' => Some('\u{3143}'),
        '\u{1109}' => Some('\u{3145}'),
        '\u{110A}' => Some('\u{3146}'),
        '\u{110B}' => Some('\u{3147}'),
        '\u{110C}' => Some('\u{3148}'),
        '\u{110D}' => Some('\u{3149}'),
        '\u{110E}' => Some('\u{314A}'),
        '\u{110F}' => Some('\u{314B}'),
        '\u{1110}' => Some('\u{314C}'),
        '\u{1111}' => Some('\u{314D}'),
        '\u{1112}' => Some('\u{314E}'),
        // vowels
        '\u{1161}' => Some('\u{314F}'),
        '\u{1162}' => Some('\u{3150}'),
        '\u{1165}' => Some('\u{3153}'),
        '\u{1166}' => Some('\u{3154}'),
        '\u{1167}' => Some('\u{3155}'),
        '\u{1168}' => Some('\u{3156}'),
        '\u{1169}' => Some('\u{3157}'),
        '\u{116E}' => Some('\u{315C}'),
        '\u{1172}' => Some('\u{3160}'),
        '\u{1173}' => Some('\u{3161}'),
        '\u{1175}' => Some('\u{3163}'),
        // trailing consonants
        '\u{11A8}' => Some('\u{3131}'),
        '\u{11AB}' => Some('\u{3134}'),
        '\u{11AF}' => Some('\u{3139}'),
        '\u{11B7}' => Some('\u{3141}'),
        '\u{11B8}' => Some('\u{3142}'),
        '\u{11BA}' => Some('\u{3145}'),
        '\u{11BC}' => Some('\u{3147}'),
        '\u{11BD}' => Some('\u{3148}'),
        '\u{11C2}' => Some('\u{314E}'),
        _ => None,
    }
}

/// The two simple consonants that a compound trailing cluster is made of.
/// `None` for anything that is not one of the eleven clusters.
pub open spec fn cluster_members(c: char) -> Option<(char, char)> {
    match c {
        '\u{11AA}' => Some(('\u{11A8}', '\u{11BA}')),
        '\u{11AC}' => Some(('\u{11AB}', '\u{11BD}')),
        '\u{11AD}' => Some(('\u{11AB}', '\u{11C2}')),
        '\u{11B0}' => Some(('\u{11AF}', '\u{11A8}')),
        '\u{11B1}' => Some(('\u{11AF}', '\u{11B7}')),
        '\u{11B2}' => Some(('\u{11AF}', '\u{11B8}')),
        '\u{11B3}' => Some(('\u{11AF}', '\u{11BA}')),
        '\u{11B4}' => Some(('\u{11AF}', '\u{11C0}')),
        '\u{11B5}' => Some(('\u{11AF}', '\u{11C1}')),
        '\u{11B6}' => Some(('\u{11AF}', '\u{11C2}')),
        '\u{11B9}' => Some(('\u{11B8}', '\u{11BA}')),
        _ => None,
    }
}

/// A trailing slot written out as simple consonants: the two members of a
/// cluster, or the slot itself.
pub open spec fn expand_trailing(c: char) -> Seq<char> {
    match cluster_members(c) {
        Some((first, second)) => seq![first, second],
        None => seq![c],
    }
}

/// Whether `c` is a compound trailing cluster, in its conjoining form or in
/// its standalone form.
pub open spec fn is_compound_cluster(c: char) -> bool {
    ||| cluster_members(c).is_some()
    ||| c == '\u{3133}'
    ||| c == '\u{3135}'
    ||| c == '\u{3136}'
    ||| '\u{313A}' <= c <= '\u{3140}'
    ||| c == '\u{3144}'
}

/// The typed forms of the letters of `parts`, in order; a letter without a
/// typed form is left out.
pub open spec fn typed_letters(parts: Seq<char>) -> Seq<char>
    decreases parts.len(),
{
    if parts.len() == 0 {
        Seq::empty()
    } else {
        let before = typed_letters(parts.drop_last());
        match typed_form(parts.last()) {
            Some(t) => before.push(t),
            None => before,
        }
    }
}

/// The conjoining jamo that are left of a decomposed character once its last
/// unit is gone: without a trailing slot the vowel goes and the lead stays,
/// with one the last simple consonant of the slot goes.
pub open spec fn remaining_parts(parts: Seq<char>) -> Seq<char> {
    if parts.len() < 2 {
        Seq::empty()
    } else if parts.len() == 2 {
        seq![parts[0]]
    } else {
        seq![parts[0], parts[1]] + expand_trailing(parts[2]).drop_last()
    }
}

/// What has to be typed again after `ch`, whose decomposition is `parts`,
/// has lost one jamo. A standalone jamo is deleted whole.
pub open spec fn retype_sequence(ch: char, parts: Seq<char>) -> Seq<char> {
    if is_standalone_jamo(ch) {
        Seq::empty()
    } else {
        typed_letters(remaining_parts(parts))
    }
}

/// Looks a conjoining jamo up in the table of typed forms.
pub fn compat_jamo(c: char) -> (r: Option<char>)
    ensures
        r == typed_form(c),
{
    match c {
        '\u{1100}' => Some('\u{3131}'),
        '\u{1101}' => Some('\u{3132}'),
        '\u{1102}' => Some('\u{3134}'),
        '\u{1103}' => Some('\u{3137}'),
        '\u{1104}' => Some('\u{3138}'),
        '\u{1105}' => Some('\u{3139}'),
        '\u{1106}' => Some('\u{3141}'),
        '\u{1107}' => Some('\u{3142}'),
        '\u{1108}' => Some('\u{3143}'),
        '\u{1109}' => Some('\u{3145}'),
        '\u{110A}' => Some('\u{3146}'),
        '\u{110B}' => Some('\u{3147}'),
        '\u{110C}' => Some('\u{3148}'),
        '\u{110D}' => Some('\u{3149}'),
        '\u{110E}' => Some('\u{314A}'),
        '\u{110F}' => Some('\u{314B}'),
        '\u{1110}' => Some('\u{314C}'),
        '\u{1111}' => Some('\u{314D}'),
        '\u{1112}' => Some('\u{314E}'),
        '\u{1161}' => Some('\u{314F}'),
        '\u{1162}' => Some('\u{3150}'),
        '\u{1165}' => Some('\u{3153}'),
        '\u{1166}' => Some('\u{3154}'),
        '\u{1167}' => Some('\u{3155}'),
        '\u{1168}' => Some('\u{3156}'),
        '\u{1169}' => Some('\u{3157}'),
        '\u{116E}' => Some('\u{315C}'),
        '\u{1172}' => Some('\u{3160}'),
        '\u{1173}' => Some('\u{3161}'),
        '\u{1175}' => Some('\u{3163}'),
        '\u{11A8}' => Some('\u{3131}'),
        '\u{11AB}' => Some('\u{3134}'),
        '\u{11AF}' => Some('\u{3139}'),
        '\u{11B7}' => Some('\u{3141}'),
        '\u{11B8}' => Some('\u{3142}'),
        '\u{11BA}' => Some('\u{3145}'),
        '\u{11BC}' => Some('\u{3147}'),
        '\u{11BD}' => Some('\u{3148}'),
        '\u{11C2}' => Some('\u{314E}'),
        _ => None,
    }
}

/// Looks a trailing slot up in the table of compound clusters.
pub fn jongseong_split(c: char) -> (r: Option<(char, char)>)
    ensures
        r == cluster_members(c),
{
    match c {
        '\u{11AA}' => Some(('\u{11A8}', '\u{11BA}')),
        '\u{11AC}' => Some(('\u{11AB}', '\u{11BD}')),
        '\u{11AD}' => Some(('\u{11AB}', '\u{11C2}')),
        '\u{11B0}' => Some(('\u{11AF}', '\u{11A8}')),
        '\u{11B1}' => Some(('\u{11AF}', '\u{11B7}')),
        '\u{11B2}' => Some(('\u{11AF}', '\u{11B8}')),
        '\u{11B3}' => Some(('\u{11AF}', '\u{11BA}')),
        '\u{11B4}' => Some(('\u{11AF}', '\u{11C0}')),
        '\u{11B5}' => Some(('\u{11AF}', '\u{11C1}')),
        '\u{11B6}' => Some(('\u{11AF}', '\u{11C2}')),
        '\u{11B9}' => Some(('\u{11B8}', '\u{11BA}')),
        _ => None,
    }
}

/// Calls `UnicodeNormalization::nfd` on the single character `c` and
/// collects what the iterator yields. Trusted: the characters are the
/// canonical decomposition of `c`, and for a precomposed Hangul syllable
/// they are its lead, its vowel and, where it has one, its trailing slot,
/// as that crate computes them by arithmetic on the code point.
#[verifier::external_body]
fn decompose(c: char) -> (parts: Vec<char>)
    ensures
        parts@ == canonical_decomposition(c),
        is_hangul_syllable(c) ==> parts@ == hangul_parts(c),
{
    c.nfd().collect()
}

/// `String::push`: appends one character to the end of the string.
pub assume_specification[ String::push ](s: &mut String, c: char)
    ensures
        final(s)@ == old(s)@.push(c),
;

/// A trailing slot expands to one or two consonants, never more, and no
/// member of a cluster is a cluster itself.
pub proof fn lemma_trailing_expands_to_one_or_two(c: char)
    ensures
        1 <= expand_trailing(c).len() <= 2,
        expand_trailing(c).len() == 2 <==> cluster_members(c).is_some(),
        forall|i: int|
            0 <= i < expand_trailing(c).len() && cluster_members(c).is_some()
                ==> cluster_members(#[trigger] expand_trailing(c)[i]).is_none(),
{
}

/// Every letter of `typed_letters(parts)` is a standalone jamo that is no
/// compound cluster, and there are no more of them than letters in `parts`.
pub proof fn lemma_typed_letters_simple(parts: Seq<char>)
    ensures
        typed_letters(parts).len() <= parts.len(),
        forall|i: int|
            0 <= i < typed_letters(parts).len() ==> {
                &&& is_standalone_jamo(#[trigger] typed_letters(parts)[i])
                &&& !is_compound_cluster(typed_letters(parts)[i])
            },
    decreases parts.len(),
{
    if parts.len() > 0 {
        lemma_typed_letters_simple(parts.drop_last());
    }
}

/// Whatever the character and its decomposition, at most three letters are
/// typed again, each of them a standalone jamo, and none of them a compound
/// trailing cluster: a cluster only ever appears as its first member.
pub proof fn lemma_retype_short_and_simple(ch: char, parts: Seq<char>)
    ensures
        retype_sequence(ch, parts).len() <= 3,
        forall|i: int|
            0 <= i < retype_sequence(ch, parts).len() ==> {
                &&& is_standalone_jamo(#[trigger] retype_sequence(ch, parts)[i])
                &&& !is_compound_cluster(retype_sequence(ch, parts)[i])
            },
{
    lemma_typed_letters_simple(remaining_parts(parts));
}

/// A standalone jamo is deleted whole: nothing is typed again, whatever its
/// decomposition.
pub proof fn lemma_standalone_jamo_leaves_nothing(ch: char, parts: Seq<char>)
    requires
        is_standalone_jamo(ch),
    ensures
        retype_sequence(ch, parts) == Seq::<char>::empty(),
{
}

/// What is typed again after a precomposed syllable: without a trailing
/// slot the lead alone, which always has a typed form; with a simple
/// trailing consonant the lead and the vowel; with a cluster the lead, the
/// vowel and the cluster's first member.
pub proof fn lemma_syllable_retype(ch: char)
    requires
        is_hangul_syllable(ch),
    ensures
        ({
            let parts = hangul_parts(ch);
            let retype = retype_sequence(ch, parts);
            &&& 2 <= parts.len() <= 3
            &&& typed_form(parts[0]).is_some()
            &&& parts.len() == 2 ==> retype == seq![typed_form(parts[0]).unwrap()]
            &&& parts.len() == 3 ==> retype == typed_letters(
                match cluster_members(parts[2]) {
                    Some((first, _)) => seq![parts[0], parts[1], first],
                    None => seq![parts[0], parts[1]],
                },
            )
        }),
{
    let parts = hangul_parts(ch);
    let index = ch as int - 0xAC00;
    assert(0 <= index / 588 <= 18);
    assert(0x1100 <= parts[0] as int <= 0x1112);
    assert(typed_form(parts[0]).is_some());
    if parts.len() == 2 {
        let lead = seq![parts[0]];
        assert(remaining_parts(parts) =~= lead);
        assert(lead.drop_last() =~= Seq::<char>::empty());
        reveal_with_fuel(typed_letters, 2);
        assert(typed_letters(lead) =~= seq![typed_form(parts[0]).unwrap()]);
    } else {
        match cluster_members(parts[2]) {
            Some((first, second)) => {
                assert(seq![first, second].drop_last() =~= seq![first]);
                assert(remaining_parts(parts) =~= seq![parts[0], parts[1], first]);
            },
            None => {
                assert(seq![parts[2]].drop_last() =~= Seq::<char>::empty());
                assert(remaining_parts(parts) =~= seq![parts[0], parts[1]]);
            },
        }
    }
}

/// The typed forms of `parts` as a string, skipping letters without one.
pub fn typed_string(parts: &Vec<char>) -> (out: String)
    ensures
        out@ == typed_letters(parts@),
{
    let mut out = String::new();
    let mut i: usize = 0;
    while i < parts.len()
        invariant
            i <= parts.len(),
            out@ == typed_letters(parts@.take(i as int)),
        decreases parts.len() - i,
    {
        proof {
            let upto = parts@.take(i + 1);
            assert(upto.drop_last() =~= parts@.take(i as int));
            assert(upto.last() == parts@[i as int]);
        }
        match compat_jamo(parts[i]) {
            Some(t) => out.push(t),
            None => {},
        }
        i += 1;
    }
    proof {
        assert(parts@.take(parts.len() as int) =~= parts@);
    }
    out
}

/// Takes one jamo off `ch`, whose canonical decomposition is `parts`, and
/// returns the standalone letters to type in its place.
pub fn delete_one_jamo_from_parts(ch: char, parts: &Vec<char>) -> (out: String)
    ensures
        out@ == retype_sequence(ch, parts@),
{
    if ch >= '\u{3131}' && ch <= '\u{318E}' {
        return String::new();
    }
    if parts.len() < 2 {
        return String::new();
    }
    let mut rest: Vec<char> = Vec::new();
    rest.push(parts[0]);
    if parts.len() > 2 {
        rest.push(parts[1]);
        let mut jong: Vec<char> = Vec::new();
        match jongseong_split(parts[2]) {
            Some((first, second)) => {
                jong.push(first);
                jong.push(second);
            },
            None => {
                jong.push(parts[2]);
            },
        }
        assert(jong@ =~= expand_trailing(parts@[2]));
        jong.pop();
        let mut k: usize = 0;
        while k < jong.len()
            invariant
                k <= jong.len(),
                rest@ == seq![parts@[0], parts@[1]] + jong@.take(k as int),
            decreases jong.len() - k,
        {
            rest.push(jong[k]);
            k += 1;
            assert(rest@ =~= seq![parts@[0], parts@[1]] + jong@.take(k as int));
        }
        assert(jong@.take(jong.len() as int) =~= jong@);
    }
    assert(rest@ =~= remaining_parts(parts@));
    typed_string(&rest)
}

/// Takes one jamo off the end of `ch` and returns the standalone letters to
/// type in its place: nothing for a standalone jamo or a character that does
/// not decompose, the lead alone where there is no trailing slot, and lead,
/// vowel and what is left of the trailing slot otherwise. A letter without a
/// typed form is left out.
pub fn delete_one_jamo(ch: char) -> (out: String)
    ensures
        out@ == retype_sequence(ch, canonical_decomposition(ch)),
        is_hangul_syllable(ch) ==> out@ == retype_sequence(ch, hangul_parts(ch)),
        is_standalone_jamo(ch) ==> out@.len() == 0,
        out@.len() <= 3,
        forall|i: int|
            0 <= i < out@.len() ==> {
                &&& is_standalone_jamo(#[trigger] out@[i])
                &&& !is_compound_cluster(out@[i])
            },
{
    let parts = decompose(ch);
    proof {
        lemma_retype_short_and_simple(ch, parts@);
    }
    delete_one_jamo_from_parts(ch, &parts)
}

} // verus!
