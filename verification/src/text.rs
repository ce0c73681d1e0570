use vstd::prelude::*;

verus! {

/// The position of the first occurrence of the byte pair `a`, `b` in `s` at or after `from`.
pub open spec fn pair_from(s: Seq<u8>, a: u8, b: u8, from: int) -> Option<int>
    decreases s.len() - from,
{
    if from < 0 || from + 1 >= s.len() {
        None
    } else if s[from] == a && s[from + 1] == b {
        Some(from)
    } else {
        pair_from(s, a, b, from + 1)
    }
}

/// The position of the first occurrence of the byte `c` in `s` at or after
/// `from`, or the length of `s` where there is none.
pub open spec fn byte_from(s: Seq<u8>, c: u8, from: int) -> int
    decreases s.len() - from,
{
    if from < 0 || from >= s.len() {
        s.len() as int
    } else if s[from] == c {
        from
    } else {
        byte_from(s, c, from + 1)
    }
}

/// The upper-case form of an ASCII letter; any other byte as it is.
pub open spec fn upper(b: u8) -> u8 {
    if 97 <= b <= 122 {
        (b - 32) as u8
    } else {
        b
    }
}

/// The token that follows a two-byte prefix found at `start`: the bytes
/// after the prefix up to the next full stop, or to the end, in upper case.
pub open spec fn token_after(path: Seq<u8>, start: int) -> Seq<u8> {
    let stop = byte_from(path, 46, start + 2);
    Seq::new((stop - (start + 2)) as nat, |k: int| upper(path[start + 2 + k]))
}

/// The display name of a weapon, taken from the path of its model: the
/// token after the first `p_`, or else after the first `w_`; empty where
/// the path holds neither.
pub open spec fn weapon_token(path: Seq<u8>) -> Seq<u8> {
    match pair_from(path, 112, 95, 0) {
        Some(start) => token_after(path, start),
        None => match pair_from(path, 119, 95, 0) {
            Some(start) => token_after(path, start),
            None => Seq::empty(),
        },
    }
}

/// The first occurrence of a pair is an occurrence, and no occurrence comes before it.
pub proof fn pair_from_is_first(s: Seq<u8>, a: u8, b: u8, from: int)
    requires
        0 <= from,
    ensures
        pair_from(s, a, b, from) matches Some(i) ==> from <= i && i + 1 < s.len() && s[i] == a
            && s[i + 1] == b && forall|j: int| from <= j < i ==> !(#[trigger] s[j] == a && s[j + 1] == b),
        pair_from(s, a, b, from) is None ==> forall|j: int|
            from <= j && j + 1 < s.len() ==> !(#[trigger] s[j] == a && s[j + 1] == b),
    decreases s.len() - from,
{
    if from + 1 >= s.len() {
    } else if s[from] == a && s[from + 1] == b {
    } else {
        pair_from_is_first(s, a, b, from + 1);
    }
}

/// The first occurrence of a byte is an occurrence or the end, and the byte
/// does not occur before it.
pub proof fn byte_from_is_first(s: Seq<u8>, c: u8, from: int)
    requires
        0 <= from <= s.len(),
    ensures
        from <= byte_from(s, c, from) <= s.len(),
        byte_from(s, c, from) < s.len() ==> s[byte_from(s, c, from)] == c,
        forall|j: int| from <= j < byte_from(s, c, from) ==> #[trigger] s[j] != c,
    decreases s.len() - from,
{
    if from >= s.len() {
    } else if s[from] == c {
    } else {
        byte_from_is_first(s, c, from + 1);
    }
}

fn find_pair(s: &Vec<u8>, a: u8, b: u8) -> (r: Option<usize>)
    ensures
        r is Some == pair_from(s@, a, b, 0) is Some,
        r matches Some(i) ==> pair_from(s@, a, b, 0) == Some(i as int) && i + 1 < s@.len(),
{
    if s.len() < 2 {
        return None;
    }
    let mut i: usize = 0;
    while i < s.len() - 1
        invariant
            s.len() >= 2,
            i <= s.len() - 1,
            pair_from(s@, a, b, 0) == pair_from(s@, a, b, i as int),
        decreases s.len() - i,
    {
        if s[i] == a && s[i + 1] == b {
            return Some(i);
        }
        i += 1;
    }
    None
}

fn find_byte(s: &Vec<u8>, c: u8, from: usize) -> (r: usize)
    requires
        from <= s.len(),
    ensures
        r == byte_from(s@, c, from as int),
        from <= r <= s.len(),
{
    let mut i: usize = from;
    while i < s.len()
        invariant
            from <= i <= s.len(),
            byte_from(s@, c, from as int) == byte_from(s@, c, i as int),
        decreases s.len() - i,
    {
        if s[i] == c {
            return i;
        }
        i += 1;
    }
    i
}

pub fn to_upper(b: u8) -> (r: u8)
    ensures
        r == upper(b),
{
    if 97 <= b && b <= 122 {
        b - 32
    } else {
        b
    }
}

fn take_token(path: &Vec<u8>, start: usize) -> (token: Vec<u8>)
    requires
        start + 1 < path.len(),
    ensures
        token@ == token_after(path@, start as int),
        (forall|j: int| 0 <= j < path@.len() ==> #[trigger] path@[j] < 128) ==> forall|k: int|
            0 <= k < token@.len() ==> #[trigger] token@[k] < 128,
{
    let first = start + 2;
    let stop = find_byte(path, 46, first);
    let mut token: Vec<u8> = Vec::new();
    let mut i: usize = first;
    while i < stop
        invariant
            first <= i <= stop <= path.len(),
            token@.len() == i - first,
            forall|k: int| 0 <= k < token@.len() ==> token@[k] == upper(path@[first + k]),
            (forall|j: int| 0 <= j < path@.len() ==> #[trigger] path@[j] < 128) ==> forall|k: int|
                0 <= k < token@.len() ==> #[trigger] token@[k] < 128,
        decreases stop - i,
    {
        token.push(to_upper(path[i]));
        i += 1;
    }
    assert(token@ =~= token_after(path@, start as int));
    token
}

/// Extracts the display name of a weapon from the path of its model.
pub fn weapon_name_of(path: &Vec<u8>) -> (token: Vec<u8>)
    ensures
        token@ == weapon_token(path@),
        (forall|j: int| 0 <= j < path@.len() ==> #[trigger] path@[j] < 128) ==> forall|k: int|
            0 <= k < token@.len() ==> #[trigger] token@[k] < 128,
{
    match find_pair(path, 112, 95) {
        Some(start) => take_token(path, start),
        None => match find_pair(path, 119, 95) {
            Some(start) => take_token(path, start),
            None => Vec::new(),
        },
    }
}

/// The name shown for a slot whose participant has no listed name: the
/// letter P and the slot number in decimal. Slot numbers have one or two digits.
pub open spec fn slot_label(idx: i32) -> Seq<u8>
    recommends
        1 <= idx <= 99,
{
    if idx >= 10 {
        seq![80u8, (48 + idx / 10) as u8, (48 + idx % 10) as u8]
    } else {
        seq![80u8, (48 + idx) as u8]
    }
}

pub(crate) fn label_of(idx: i32) -> (label: Vec<u8>)
    requires
        1 <= idx <= 99,
    ensures
        label@ == slot_label(idx),
        forall|k: int| 0 <= k < label@.len() ==> #[trigger] label@[k] < 128,
{
    let mut label: Vec<u8> = Vec::new();
    label.push(80);
    if idx >= 10 {
        label.push((48 + idx / 10) as u8);
        label.push((48 + idx % 10) as u8);
    } else {
        label.push((48 + idx) as u8);
    }
    assert(label@ =~= slot_label(idx));
    label
}

/// The characters that a run of ASCII bytes stands for.
pub open spec fn ascii_chars(bytes: Seq<u8>) -> Seq<char> {
    Seq::new(bytes.len(), |k: int| bytes[k] as char)
}

/// Turns ASCII bytes into a string with `String::from_utf8_lossy`. That
/// function keeps valid UTF-8 as it is, and a run of bytes below 128 is
/// valid UTF-8 in which every byte is one character.
#[verifier::external_body]
pub(crate) fn ascii_string(bytes: &Vec<u8>) -> (s: String)
    requires
        forall|k: int| 0 <= k < bytes@.len() ==> bytes@[k] < 128,
    ensures
        s@ == ascii_chars(bytes@),
{
    String::from_utf8_lossy(bytes).into_owned()
}

} // verus!
