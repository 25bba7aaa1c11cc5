//! Hot keys as the configuration writes them: the held keys and the key,
//! joined by `+`, as in `CTRL+ALT+S`.

use vstd::prelude::*;

verus! {

/// Either alt key is held.
pub const MOD_ALT: u32 = 0x0001;

/// Either control key is held.
pub const MOD_CONTROL: u32 = 0x0002;

/// Either shift key is held.
pub const MOD_SHIFT: u32 = 0x0004;

/// Either Windows key is held.
pub const MOD_WIN: u32 = 0x0008;

/// Holding the keys down does not press the hot key again and again.
pub const MOD_NOREPEAT: u32 = 0x4000;

/// The system has posted a hot key.
pub const WM_HOTKEY: u32 = 0x0312;

/// The fewest parts a hot key can have: one held key and the key.
pub const MIN_PARTS: usize = 2;

/// The most parts a hot key can have: four held keys and the key.
pub const MAX_PARTS: usize = 5;

/// A hot key that has been read.
#[derive(Debug, Clone, Copy, PartialEq, Eq, Structural)]
pub struct Hotkey {
    /// The flags of the held keys, with [`MOD_NOREPEAT`].
    pub modifiers: u32,
    /// The character of the key.
    pub key: char,
}

/// Why a hot key cannot be read.
#[derive(Debug, Clone, Copy, PartialEq, Eq, Structural)]
pub enum HotkeyError {
    /// The combination is not between two and five keys long.
    Length,
    /// Nothing stands where the key should.
    MissingKey,
    /// A held key is none of CTRL, ALT, SHIFT, WIN.
    UnknownModifier,
}

impl HotkeyError {
    /// What is wrong with the hot key, in words.
    pub fn message(&self) -> (text: &'static str)
        ensures
            text == match *self {
                HotkeyError::Length => "Combination must be between 2 to 5 keys long.",
                HotkeyError::MissingKey => "The key is missing at the end of the combination.",
                HotkeyError::UnknownModifier =>
                    "Unidentified modifier in hotkey combination. Valid modifiers are CTRL, ALT, SHIFT, WIN.",
            },
    {
        match self {
            HotkeyError::Length => "Combination must be between 2 to 5 keys long.",
            HotkeyError::MissingKey => "The key is missing at the end of the combination.",
            HotkeyError::UnknownModifier =>
                "Unidentified modifier in hotkey combination. Valid modifiers are CTRL, ALT, SHIFT, WIN.",
        }
    }
}

/// Whether the character has the Unicode property White_Space, as
/// `char::is_whitespace` of the standard library tells.
pub uninterp spec fn is_whitespace(c: char) -> bool;

/// `char::is_whitespace` of the standard library: tells whether a character
/// has the Unicode property White_Space. The answer depends on the
/// character alone; nothing more is claimed than that.
#[verifier::external_body]
fn whitespace(c: char) -> (white: bool)
    ensures
        white == is_whitespace(c),
{
    c.is_whitespace()
}

/// The parts into which `sep` divides the text. Read from the left, every
/// `sep` opens a new part and every other character goes to the last part;
/// text without a `sep` is one part.
pub open spec fn parts(text: Seq<char>, sep: char) -> Seq<Seq<char>>
    decreases text.len(),
{
    if text.len() == 0 {
        seq![Seq::<char>::empty()]
    } else {
        let before = parts(text.drop_last(), sep);
        if text.last() == sep {
            before.push(Seq::<char>::empty())
        } else {
            before.update(before.len() - 1, before.last().push(text.last()))
        }
    }
}

/// The index of the first character at or after `from` that is no
/// whitespace, or the length of the text.
pub open spec fn leading(text: Seq<char>, from: int) -> int
    decreases text.len() - from,
{
    if 0 <= from < text.len() && is_whitespace(text[from]) {
        leading(text, from + 1)
    } else {
        from
    }
}

/// The index just behind the last character before `to` and not before
/// `floor` that is no whitespace, or `floor`.
pub open spec fn trailing(text: Seq<char>, to: int, floor: int) -> int
    decreases to - floor,
{
    if floor < to <= text.len() && is_whitespace(text[to - 1]) {
        trailing(text, to - 1, floor)
    } else {
        to
    }
}

/// The text without the whitespace at its start and at its end.
pub open spec fn trimmed(text: Seq<char>) -> Seq<char> {
    let start = leading(text, 0);
    text.subrange(start, trailing(text, text.len() as int, start))
}

/// The flag of a held key.
pub open spec fn modifier_of(name: Seq<char>) -> Option<u32> {
    if name == seq!['A', 'L', 'T'] {
        Some(MOD_ALT)
    } else if name == seq!['C', 'T', 'R', 'L'] {
        Some(MOD_CONTROL)
    } else if name == seq!['S', 'H', 'I', 'F', 'T'] {
        Some(MOD_SHIFT)
    } else if name == seq!['W', 'I', 'N'] {
        Some(MOD_WIN)
    } else {
        None
    }
}

/// The flags of the held keys together, if every one of them is known.
pub open spec fn modifiers_of(names: Seq<Seq<char>>) -> Option<u32>
    decreases names.len(),
{
    if names.len() == 0 {
        Some(0)
    } else {
        match (modifiers_of(names.drop_last()), modifier_of(names.last())) {
            (Some(code), Some(flag)) => Some(code | flag),
            _ => None,
        }
    }
}

/// What a hot key in the configuration stands for: its parts are divided by
/// `+` and each is taken without the whitespace around it; the last part
/// gives the key by its first character, the parts before it are the held
/// keys.
pub open spec fn parsed(text: Seq<char>) -> Result<Hotkey, HotkeyError> {
    let names = parts(text, '+').map_values(|part: Seq<char>| trimmed(part));
    if names.len() < MIN_PARTS || names.len() > MAX_PARTS {
        Err(HotkeyError::Length)
    } else if names.last().len() == 0 {
        Err(HotkeyError::MissingKey)
    } else {
        match modifiers_of(names.drop_last()) {
            Some(code) => Ok(Hotkey { modifiers: code | MOD_NOREPEAT, key: names.last()[0] }),
            None => Err(HotkeyError::UnknownModifier),
        }
    }
}

/// Divides the text at every `sep`.
fn split(text: &Vec<char>, sep: char) -> (pieces: Vec<Vec<char>>)
    ensures
        pieces@.map_values(|piece: Vec<char>| piece@) == parts(text@, sep),
        pieces@.len() >= 1,
{
    let mut pieces: Vec<Vec<char>> = Vec::new();
    let mut current: Vec<char> = Vec::new();
    let mut i: usize = 0;
    assert(text@.take(0) =~= Seq::<char>::empty());
    while i < text.len()
        invariant
            i <= text@.len(),
            pieces@.map_values(|piece: Vec<char>| piece@).push(current@) == parts(
                text@.take(i as int),
                sep,
            ),
        decreases text@.len() - i,
    {
        let c = text[i];
        proof {
            let prefix = text@.take(i as int + 1);
            assert(prefix.drop_last() =~= text@.take(i as int));
            assert(prefix.last() == c);
        }
        let ghost before = pieces@.map_values(|piece: Vec<char>| piece@).push(current@);
        if c == sep {
            let ghost done = current@;
            pieces.push(current);
            current = Vec::new();
            assert(pieces@.map_values(|piece: Vec<char>| piece@).push(current@) =~= before.push(
                Seq::<char>::empty(),
            ));
        } else {
            current.push(c);
            assert(pieces@.map_values(|piece: Vec<char>| piece@).push(current@) =~= before.update(
                before.len() - 1,
                before.last().push(c),
            ));
        }
        i += 1;
    }
    assert(text@.take(i as int) =~= text@);
    let ghost before = pieces@.map_values(|piece: Vec<char>| piece@).push(current@);
    pieces.push(current);
    assert(pieces@.map_values(|piece: Vec<char>| piece@) =~= before);
    pieces
}

/// The text without the whitespace at its start and at its end.
fn trim(text: &Vec<char>) -> (bare: Vec<char>)
    ensures
        bare@ == trimmed(text@),
{
    let n = text.len();
    let mut start: usize = 0;
    while start < n && whitespace(text[start])
        invariant
            start <= n,
            n == text@.len(),
            leading(text@, 0) == leading(text@, start as int),
        decreases n - start,
    {
        start += 1;
    }
    let mut end: usize = n;
    while end > start && whitespace(text[end - 1])
        invariant
            start <= end <= n,
            n == text@.len(),
            trailing(text@, n as int, start as int) == trailing(text@, end as int, start as int),
        decreases end,
    {
        end -= 1;
    }
    let mut bare: Vec<char> = Vec::new();
    let mut i: usize = start;
    while i < end
        invariant
            start <= i <= end <= n,
            n == text@.len(),
            bare@ == text@.subrange(start as int, i as int),
        decreases end - i,
    {
        bare.push(text[i]);
        i += 1;
        assert(bare@ =~= text@.subrange(start as int, i as int));
    }
    bare
}

/// Whether the text is exactly these characters.
fn spells(text: &Vec<char>, word: &Vec<char>) -> (same: bool)
    ensures
        same == (text@ == word@),
{
    if text.len() != word.len() {
        return false;
    }
    let mut i: usize = 0;
    while i < text.len()
        invariant
            i <= text@.len(),
            text@.len() == word@.len(),
            forall|k: int| 0 <= k < i ==> text@[k] == word@[k],
        decreases text@.len() - i,
    {
        if text[i] != word[i] {
            return false;
        }
        i += 1;
    }
    assert(text@ =~= word@);
    true
}

/// The flag of a held key.
fn modifier(name: &Vec<char>) -> (flag: Option<u32>)
    ensures
        flag == modifier_of(name@),
{
    let alt = vec!['A', 'L', 'T'];
    let ctrl = vec!['C', 'T', 'R', 'L'];
    let shift = vec!['S', 'H', 'I', 'F', 'T'];
    let win = vec!['W', 'I', 'N'];
    assert(alt@ =~= seq!['A', 'L', 'T']);
    assert(ctrl@ =~= seq!['C', 'T', 'R', 'L']);
    assert(shift@ =~= seq!['S', 'H', 'I', 'F', 'T']);
    assert(win@ =~= seq!['W', 'I', 'N']);
    if spells(name, &alt) {
        Some(MOD_ALT)
    } else if spells(name, &ctrl) {
        Some(MOD_CONTROL)
    } else if spells(name, &shift) {
        Some(MOD_SHIFT)
    } else if spells(name, &win) {
        Some(MOD_WIN)
    } else {
        None
    }
}

/// The flags of the first `count` names together, if every one of them is
/// known.
fn compile_modifiers(names: &Vec<Vec<char>>, count: usize) -> (code: Option<u32>)
    requires
        count <= names@.len(),
    ensures
        code == modifiers_of(names@.map_values(|name: Vec<char>| name@).take(count as int)),
{
    let ghost all = names@.map_values(|name: Vec<char>| name@);
    let mut code: u32 = 0;
    let mut i: usize = 0;
    assert(all.take(0) =~= Seq::<Seq<char>>::empty());
    while i < count
        invariant
            i <= count <= names@.len(),
            all == names@.map_values(|name: Vec<char>| name@),
            modifiers_of(all.take(i as int)) == Some(code),
        decreases count - i,
    {
        proof {
            let prefix = all.take(i as int + 1);
            assert(prefix.drop_last() =~= all.take(i as int));
            assert(prefix.last() == names@[i as int]@);
        }
        match modifier(&names[i]) {
            Some(flag) => {
                code = code | flag;
            },
            None => {
                proof {
                    lemma_unknown_stays_unknown(all, i as int + 1, count as int);
                }
                return None;
            },
        }
        i += 1;
    }
    Some(code)
}

/// Once a name is unknown, more names do not help.
proof fn lemma_unknown_stays_unknown(names: Seq<Seq<char>>, i: int, j: int)
    requires
        0 <= i <= j <= names.len(),
        modifiers_of(names.take(i)) is None,
    ensures
        modifiers_of(names.take(j)) is None,
    decreases j - i,
{
    if i < j {
        lemma_unknown_stays_unknown(names, i, j - 1);
        assert(names.take(j).drop_last() =~= names.take(j - 1));
    }
}

/// The characters of the text.
fn characters(text: &str) -> (chars: Vec<char>)
    ensures
        chars@ == text@,
{
    let n = text.unicode_len();
    let mut chars: Vec<char> = Vec::new();
    let mut i: usize = 0;
    while i < n
        invariant
            i <= n,
            n == text@.len(),
            chars@ == text@.take(i as int),
        decreases n - i,
    {
        chars.push(text.get_char(i));
        i += 1;
        assert(chars@ =~= text@.take(i as int));
    }
    assert(text@.take(n as int) =~= text@);
    chars
}

/// Reads a hot key as the configuration writes it.
pub fn parse_hotkey(text: &str) -> (hotkey: Result<Hotkey, HotkeyError>)
    ensures
        hotkey == parsed(text@),
{
    let chars = characters(text);
    let pieces = split(&chars, '+');
    let mut names: Vec<Vec<char>> = Vec::new();
    let mut i: usize = 0;
    while i < pieces.len()
        invariant
            i <= pieces@.len(),
            names@.len() == i,
            forall|k: int| 0 <= k < i ==> (#[trigger] names@[k])@ == trimmed(pieces@[k]@),
        decreases pieces@.len() - i,
    {
        names.push(trim(&pieces[i]));
        i += 1;
    }
    let ghost all = parts(text@, '+').map_values(|part: Seq<char>| trimmed(part));
    proof {
        let raw = pieces@.map_values(|piece: Vec<char>| piece@);
        assert(raw == parts(text@, '+'));
        assert(names@.map_values(|name: Vec<char>| name@) =~= all) by {
            assert forall|k: int| 0 <= k < names@.len() implies names@[k]@ == all[k] by {
                assert(raw[k] == pieces@[k]@);
            }
        }
    }
    let n = names.len();
    if n < MIN_PARTS || n > MAX_PARTS {
        return Err(HotkeyError::Length);
    }
    let last = &names[n - 1];
    if last.len() == 0 {
        return Err(HotkeyError::MissingKey);
    }
    let key = last[0];
    proof {
        assert(all.take(n as int - 1) =~= all.drop_last());
    }
    match compile_modifiers(&names, n - 1) {
        Some(code) => Ok(Hotkey { modifiers: code | MOD_NOREPEAT, key }),
        None => Err(HotkeyError::UnknownModifier),
    }
}

/// What the keyboard layout says of a character: the virtual key code in
/// the low byte, or minus one where no key gives the character.
pub open spec fn spec_vkcode(scan: i16) -> Option<u32> {
    if scan == -1 {
        None
    } else {
        Some(((scan as u16) & 0xff) as u32)
    }
}

/// The virtual key code in what the keyboard layout says of a character,
/// or `None` where no key gives the character.
pub fn vkcode(scan: i16) -> (code: Option<u32>)
    ensures
        code == spec_vkcode(scan),
{
    if scan == -1 {
        None
    } else {
        let unsigned: u16 = #[verifier::truncate]
        (scan as u16);
        Some((unsigned & 0xff) as u32)
    }
}

} // verus!
