//! Text handling around a turn: locating the reasoning marker, the magic
//! word, and preparing a reply for speech synthesis.

use crate::trusted::{lowercase, lowercase_of, replace_all_matches};
use vstd::pervasive::unreached;
use vstd::prelude::*;

verus! {

/// The regular expression for runs of emoji: one character class, repeated.
/// The class holds the five ranges of `in_emoji_block` and then the 32
/// ranges and 32 single characters of `is_scattered_emoji`, each in the
/// order of those functions.
pub const EMOJI_PATTERN: &'static str =
    "[\u{1F600}-\u{1F64F}\u{1F300}-\u{1F5FF}\u{1F680}-\u{1F6FF}\u{1F1E0}-\u{1F1FF}\u{2702}-\u{27B0}\
    \u{24C2}\u{25AA}-\u{25AB}\u{25B6}\u{25C0}\u{25FB}-\u{25FE}\u{2600}-\u{2604}\
    \u{260E}\u{2611}\u{2614}-\u{2615}\u{2618}\u{261D}\u{2620}\u{2622}-\u{2623}\
    \u{2626}\u{262A}\u{262E}-\u{262F}\u{2638}-\u{263A}\u{2640}\u{2642}\u{2648}-\u{2653}\
    \u{265F}-\u{2660}\u{2663}\u{2665}-\u{2666}\u{2668}\u{267B}\u{267E}-\u{267F}\
    \u{2692}-\u{2697}\u{2699}\u{269B}-\u{269C}\u{26A0}-\u{26A1}\u{26A7}\u{26AA}-\u{26AB}\
    \u{26B0}-\u{26B1}\u{26BD}-\u{26BE}\u{26C4}-\u{26C5}\u{26C8}\u{26CE}-\u{26CF}\
    \u{26D1}\u{26D3}-\u{26D4}\u{26E9}-\u{26EA}\u{26F0}-\u{26F5}\u{26F7}-\u{26FA}\
    \u{26FD}\u{27BF}\u{2934}-\u{2935}\u{2B05}-\u{2B07}\u{2B1B}-\u{2B1C}\u{2B50}\
    \u{2B55}\u{3030}\u{303D}\u{3297}\u{3299}\u{1F004}\u{1F0CF}\u{1F170}-\u{1F171}\
    \u{1F17E}-\u{1F17F}\u{1F18E}\u{1F191}-\u{1F19A}\u{1F201}-\u{1F202}\u{1F21A}\
    \u{1F22F}\u{1F232}-\u{1F23A}\u{1F250}-\u{1F251}]+";

/// Whether `code` lies in one of the five blocks that are taken whole:
/// emoticons, symbols and pictographs, transport and map symbols, flags, and
/// dingbats.
pub open spec fn in_emoji_block(code: u32) -> bool {
    ||| 0x1F600 <= code <= 0x1F64F
    ||| 0x1F300 <= code <= 0x1F5FF
    ||| 0x1F680 <= code <= 0x1F6FF
    ||| 0x1F1E0 <= code <= 0x1F1FF
    ||| 0x2702 <= code <= 0x27B0
}

/// Whether `code` is one of the emoji that lie scattered from the circled M
/// to the circled accept sign, outside the five blocks: the characters of
/// U+24C2 to U+1F251 that have Unicode's Emoji property.
pub open spec fn is_scattered_emoji(code: u32) -> bool {
    ||| code == 0x24C2
    ||| 0x25AA <= code <= 0x25AB
    ||| code == 0x25B6
    ||| code == 0x25C0
    ||| 0x25FB <= code <= 0x25FE
    ||| 0x2600 <= code <= 0x2604
    ||| code == 0x260E
    ||| code == 0x2611
    ||| 0x2614 <= code <= 0x2615
    ||| code == 0x2618
    ||| code == 0x261D
    ||| code == 0x2620
    ||| 0x2622 <= code <= 0x2623
    ||| code == 0x2626
    ||| code == 0x262A
    ||| 0x262E <= code <= 0x262F
    ||| 0x2638 <= code <= 0x263A
    ||| code == 0x2640
    ||| code == 0x2642
    ||| 0x2648 <= code <= 0x2653
    ||| 0x265F <= code <= 0x2660
    ||| code == 0x2663
    ||| 0x2665 <= code <= 0x2666
    ||| code == 0x2668
    ||| code == 0x267B
    ||| 0x267E <= code <= 0x267F
    ||| 0x2692 <= code <= 0x2697
    ||| code == 0x2699
    ||| 0x269B <= code <= 0x269C
    ||| 0x26A0 <= code <= 0x26A1
    ||| code == 0x26A7
    ||| 0x26AA <= code <= 0x26AB
    ||| 0x26B0 <= code <= 0x26B1
    ||| 0x26BD <= code <= 0x26BE
    ||| 0x26C4 <= code <= 0x26C5
    ||| code == 0x26C8
    ||| 0x26CE <= code <= 0x26CF
    ||| code == 0x26D1
    ||| 0x26D3 <= code <= 0x26D4
    ||| 0x26E9 <= code <= 0x26EA
    ||| 0x26F0 <= code <= 0x26F5
    ||| 0x26F7 <= code <= 0x26FA
    ||| code == 0x26FD
    ||| code == 0x27BF
    ||| 0x2934 <= code <= 0x2935
    ||| 0x2B05 <= code <= 0x2B07
    ||| 0x2B1B <= code <= 0x2B1C
    ||| code == 0x2B50
    ||| code == 0x2B55
    ||| code == 0x3030
    ||| code == 0x303D
    ||| code == 0x3297
    ||| code == 0x3299
    ||| code == 0x1F004
    ||| code == 0x1F0CF
    ||| 0x1F170 <= code <= 0x1F171
    ||| 0x1F17E <= code <= 0x1F17F
    ||| code == 0x1F18E
    ||| 0x1F191 <= code <= 0x1F19A
    ||| 0x1F201 <= code <= 0x1F202
    ||| code == 0x1F21A
    ||| code == 0x1F22F
    ||| 0x1F232 <= code <= 0x1F23A
    ||| 0x1F250 <= code <= 0x1F251
}

/// Whether `c` counts as emoji: it lies in one of the five blocks, or it is
/// one of the scattered emoji.
pub open spec fn is_emoji(c: char) -> bool {
    in_emoji_block(c as u32) || is_scattered_emoji(c as u32)
}

/// A text without its emoji: the other characters, in their order.
pub open spec fn without_emoji(text: Seq<char>) -> Seq<char> {
    text.filter(|c: char| !is_emoji(c))
}

/// Whether `pattern` stands in `text` starting at index `at`.
pub open spec fn occurs_at(text: Seq<char>, pattern: Seq<char>, at: int) -> bool {
    &&& 0 <= at
    &&& at + pattern.len() <= text.len()
    &&& text.subrange(at, at + pattern.len()) == pattern
}

/// Whether `pattern` stands somewhere in `text`.
pub open spec fn contains(text: Seq<char>, pattern: Seq<char>) -> bool {
    exists|at: int| occurs_at(text, pattern, at)
}

/// Whether `at` is the leftmost place where `pattern` stands in `text`.
pub open spec fn is_first_occurrence(text: Seq<char>, pattern: Seq<char>, at: int) -> bool {
    &&& occurs_at(text, pattern, at)
    &&& forall|earlier: int| 0 <= earlier < at ==> !occurs_at(text, pattern, earlier)
}

/// The characters of `s`, in order.
pub fn to_chars(s: &str) -> (chars: Vec<char>)
    ensures
        chars@ == s@,
{
    let mut chars: Vec<char> = Vec::new();
    for c in it: s.chars()
        invariant
            it.seq() == s@,
            chars@ == it.seq().take(it.index()),
    {
        chars.push(c);
    }
    chars
}

/// Whether `pattern` stands in `text` at `at`.
fn matches_at(text: &Vec<char>, pattern: &Vec<char>, at: usize) -> (matched: bool)
    requires
        at + pattern.len() <= text.len(),
    ensures
        matched == occurs_at(text@, pattern@, at as int),
{
    let mut k: usize = 0;
    while k < pattern.len()
        invariant
            k <= pattern.len(),
            at + pattern.len() <= text.len(),
            forall|j: int| 0 <= j < k ==> text@[at + j] == pattern@[j],
        decreases pattern.len() - k,
    {
        if text[at + k] != pattern[k] {
            assert(text@.subrange(at as int, at + pattern@.len())[k as int] == text@[at + k]);
            return false;
        }
        k += 1;
    }
    assert(text@.subrange(at as int, at + pattern@.len()) =~= pattern@);
    true
}

/// The leftmost place where `pattern` stands in `text`, if there is one.
pub fn find(text: &Vec<char>, pattern: &Vec<char>) -> (found: Option<usize>)
    ensures
        match found {
            Some(at) => is_first_occurrence(text@, pattern@, at as int),
            None => !contains(text@, pattern@),
        },
{
    if pattern.len() > text.len() {
        return None;
    }
    let last: usize = text.len() - pattern.len();
    let mut at: usize = 0;
    loop
        invariant
            last == text.len() - pattern.len(),
            at <= last,
            forall|earlier: int| 0 <= earlier < at ==> !occurs_at(text@, pattern@, earlier),
        decreases last - at,
    {
        if matches_at(text, pattern, at) {
            return Some(at);
        }
        if at == last {
            return None;
        }
        at += 1;
    }
}

/// The leftmost place where `pattern` stands in `text`; meaningful only
/// where `contains(text, pattern)`.
pub open spec fn first_occurrence(text: Seq<char>, pattern: Seq<char>) -> int {
    choose|at: int| is_first_occurrence(text, pattern, at)
}

/// A pattern has at most one leftmost occurrence.
pub proof fn lemma_first_occurrence_unique(text: Seq<char>, pattern: Seq<char>, a: int, b: int)
    requires
        is_first_occurrence(text, pattern, a),
        is_first_occurrence(text, pattern, b),
    ensures
        a == b,
        first_occurrence(text, pattern) == a,
        contains(text, pattern),
{
    let c = first_occurrence(text, pattern);
    assert(is_first_occurrence(text, pattern, c));
    if a < c {
        assert(!occurs_at(text, pattern, a));
    }
    if c < a {
        assert(!occurs_at(text, pattern, c));
    }
    if a < b {
        assert(!occurs_at(text, pattern, a));
    }
    if b < a {
        assert(!occurs_at(text, pattern, b));
    }
}

/// The marker that closes a reasoning trace in a reply.
pub open spec fn think_marker() -> Seq<char> {
    seq!['<', '/', 't', 'h', 'i', 'n', 'k', '>']
}

/// A reply without its reasoning trace: what follows the first closing
/// marker, or the whole reply where there is no marker.
pub open spec fn without_reasoning(reply: Seq<char>) -> Seq<char> {
    if contains(reply, think_marker()) {
        reply.skip(first_occurrence(reply, think_marker()) + think_marker().len())
    } else {
        reply
    }
}

fn think_marker_chars() -> (marker: Vec<char>)
    ensures
        marker@ == think_marker(),
{
    let marker: Vec<char> = vec!['<', '/', 't', 'h', 'i', 'n', 'k', '>'];
    assert(marker@ =~= think_marker());
    marker
}

/// Drops the reasoning trace of a reply: everything up to and including the
/// first closing marker. A reply without the marker comes back whole.
pub fn remove_think_tags(input: &str) -> (out: String)
    ensures
        out@ == without_reasoning(input@),
{
    let chars = to_chars(input);
    let marker = think_marker_chars();
    match find(&chars, &marker) {
        Some(at) => {
            assert(occurs_at(chars@, marker@, at as int));
            proof {
                lemma_first_occurrence_unique(input@, think_marker(), at as int, at as int);
            }
            let end: usize = chars.len();
            let width: usize = marker.len();
            assert(at + width <= end);
            let rest = input.substring_char(at + width, end);
            assert(rest@ =~= input@.skip(at + think_marker().len()));
            String::from_str(rest)
        },
        None => String::from_str(input),
    }
}

/// The marker is eight characters long and only its first is `<`.
proof fn lemma_marker_shape()
    ensures
        think_marker().len() == 8,
        think_marker()[0] == '<',
        forall|k: int| 1 <= k < 8 ==> think_marker()[k] != '<',
{
    let marker = think_marker();
    assert(marker.len() == 8);
    assert(marker[0] == '<');
    assert(marker[1] == '/');
    assert(marker[2] == 't');
    assert(marker[3] == 'h');
    assert(marker[4] == 'i');
    assert(marker[5] == 'n');
    assert(marker[6] == 'k');
    assert(marker[7] == '>');
}

/// No occurrence of the marker in `prefix + marker + body` starts inside a
/// prefix that holds no marker itself.
proof fn lemma_no_earlier_marker(prefix: Seq<char>, body: Seq<char>, earlier: int)
    requires
        !contains(prefix, think_marker()),
        0 <= earlier < prefix.len(),
    ensures
        !occurs_at(prefix + think_marker() + body, think_marker(), earlier),
{
    let marker = think_marker();
    let reply = prefix + marker + body;
    let at = prefix.len() as int;
    lemma_marker_shape();
    if occurs_at(reply, marker, earlier) {
        let window = reply.subrange(earlier, earlier + 8);
        assert(window == marker);
        if earlier + 8 <= at {
            assert(prefix.subrange(earlier, earlier + 8) =~= window);
            assert(occurs_at(prefix, marker, earlier));
        } else {
            let k = at - earlier;
            assert(window[k] == reply[at]);
            assert(reply[at] == marker[0]);
        }
    }
}

/// A reply made of a prefix without the closing marker, then the marker,
/// then a body, loses exactly the prefix and the marker: the body is what
/// remains, whatever it holds.
pub proof fn lemma_reasoning_is_dropped(prefix: Seq<char>, body: Seq<char>)
    requires
        !contains(prefix, think_marker()),
    ensures
        without_reasoning(prefix + think_marker() + body) == body,
{
    let marker = think_marker();
    let reply = prefix + marker + body;
    let at = prefix.len() as int;
    lemma_marker_shape();
    assert(reply.subrange(at, at + 8) =~= marker);
    assert forall|earlier: int| 0 <= earlier < at implies !occurs_at(reply, marker, earlier) by {
        lemma_no_earlier_marker(prefix, body, earlier);
    }
    lemma_first_occurrence_unique(reply, marker, at, at);
    assert(reply.skip(at + 8) =~= body);
}

/// Whether `word` stands somewhere in `text`.
pub fn contains_word(text: &str, word: &str) -> (found: bool)
    ensures
        found == contains(text@, word@),
{
    let text_chars = to_chars(text);
    let word_chars = to_chars(word);
    find(&text_chars, &word_chars).is_some()
}

/// Whether `word` stands in the lowercase form of `transcript`: the test
/// for the magic word, which is given in lowercase.
pub fn hears(transcript: &str, word: &str) -> (heard: bool)
    ensures
        heard == contains(lowercase_of(transcript@), word@),
{
    let lowered = lowercase(transcript);
    contains_word(lowered.as_str(), word)
}

/// Removes every emoji from `string`, by replacing each match of
/// `EMOJI_PATTERN` with nothing. Every other character is kept, in order.
pub fn remove_emoji(string: String) -> (out: String)
    ensures
        out@ == without_emoji(string@),
{
    let nothing = "";
    proof {
        reveal_strlit("");
    }
    match replace_all_matches(EMOJI_PATTERN, string.as_str(), nothing) {
        Some(clean) => clean,
        None => unreached(),
    }
}

/// The text handed to speech synthesis for a reply: the reply without its
/// reasoning trace, and then without emoji.
pub fn synthesis_input(reply: &str) -> (out: String)
    ensures
        out@ == without_emoji(without_reasoning(reply@)),
{
    remove_emoji(remove_think_tags(reply))
}

/// Removing emoji goes character by character: a text with one more
/// character at its end gives the same result with that character at its
/// end, or the same result where the character is emoji.
pub proof fn lemma_without_emoji_step(text: Seq<char>, last: char)
    ensures
        without_emoji(text.push(last)) == if is_emoji(last) {
            without_emoji(text)
        } else {
            without_emoji(text).push(last)
        },
        without_emoji(Seq::empty()) == Seq::<char>::empty(),
{
    reveal(Seq::filter);
    assert(text.push(last).drop_last() =~= text);
    assert(Seq::<char>::empty().filter(|c: char| !is_emoji(c)) =~= Seq::<char>::empty());
}

/// What is left of a text without its emoji holds no emoji, and a text that
/// holds none is left as it is.
pub proof fn lemma_without_emoji(text: Seq<char>)
    ensures
        forall|i: int|
            0 <= i < without_emoji(text).len() ==> !is_emoji(#[trigger] without_emoji(text)[i]),
        (forall|i: int| 0 <= i < text.len() ==> !is_emoji(#[trigger] text[i])) ==> without_emoji(
            text,
        ) == text,
        without_emoji(text).len() <= text.len(),
    decreases text.len(),
{
    let keep = |c: char| !is_emoji(c);
    reveal(Seq::filter);
    if text.len() > 0 {
        lemma_without_emoji(text.drop_last());
        if forall|i: int| 0 <= i < text.len() ==> !is_emoji(#[trigger] text[i]) {
            assert forall|i: int| 0 <= i < text.drop_last().len() implies !is_emoji(
                #[trigger] text.drop_last()[i],
            ) by {
                assert(text.drop_last()[i] == text[i]);
            }
            assert(!is_emoji(text[text.len() - 1]));
            assert(text.drop_last().push(text.last()) =~= text);
        }
    } else {
        assert(text.filter(keep) =~= text);
    }
}

/// Whether `c` lies in one of the stretches of code points that hold no
/// emoji and take in the letters, digits, punctuation and spaces of the
/// world's scripts: everything below the circled M, with the Latin, Greek,
/// Cyrillic, Hebrew, Arabic, Indic and Thai scripts, the digits and the
/// general punctuation; from there to the first small square, with box
/// drawing and block elements; from the last dingbat to the first curved
/// arrow; from the heavy circle to the wavy dash, with the CJK radicals and
/// punctuation; from the part alternation mark to the circled
/// congratulation sign, with kana and bopomofo; and from the circled secret
/// sign to the mahjong tile, with the CJK ideographs, Hangul, and the
/// compatibility and half-width forms.
pub open spec fn is_plainly_kept(c: char) -> bool {
    let code = c as u32;
    ||| code < 0x24C2
    ||| 0x24C2 < code < 0x25AA
    ||| 0x27BF < code < 0x2934
    ||| 0x2B55 < code < 0x3030
    ||| 0x303D < code < 0x3297
    ||| 0x3299 < code < 0x1F004
}

/// No character of those stretches is emoji, so a text made of them comes
/// back from the removal as it is.
pub proof fn lemma_plain_text_is_kept(text: Seq<char>)
    requires
        forall|i: int| 0 <= i < text.len() ==> is_plainly_kept(#[trigger] text[i]),
    ensures
        forall|c: char| is_plainly_kept(c) ==> !is_emoji(c),
        without_emoji(text) == text,
{
    lemma_without_emoji(text);
}

/// A reply made of a reasoning trace, its closing marker and a body free of
/// emoji gives exactly the body as synthesis input.
pub proof fn lemma_synthesis_input_is_the_body(prefix: Seq<char>, body: Seq<char>)
    requires
        !contains(prefix, think_marker()),
        forall|i: int| 0 <= i < body.len() ==> !is_emoji(#[trigger] body[i]),
    ensures
        without_emoji(without_reasoning(prefix + think_marker() + body)) == body,
{
    lemma_reasoning_is_dropped(prefix, body);
    lemma_without_emoji(body);
}

} // verus!
