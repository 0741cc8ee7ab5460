use vstd::prelude::*;
use vstd::string::{StrSliceExecFns, StringExecFns};

use crate::keys::{KeyCode, KeyEvent, ALT, CONTROL, SHIFT};
use crate::text::{lower_of, to_lower};

verus! {

/// The characters of a text.
fn chars_of(s: &str) -> (r: Vec<char>)
    ensures
        r@ == s@,
{
    let n = s.unicode_len();
    let mut r: Vec<char> = Vec::new();
    let mut i: usize = 0;
    while i < n
        invariant
            n == s@.len(),
            i <= n,
            r@ == s@.take(i as int),
        decreases n - i,
    {
        r.push(s.get_char(i));
        i += 1;
        assert(r@ =~= s@.take(i as int));
    }
    assert(s@.take(n as int) =~= s@);
    r
}

/// Whether two texts hold the same characters.
fn same_text(a: &Vec<char>, b: &str) -> (r: bool)
    ensures
        r == (a@ == b@),
{
    let n = b.unicode_len();
    if a.len() != n {
        return false;
    }
    let mut i: usize = 0;
    while i < n
        invariant
            n == b@.len(),
            a@.len() == n,
            i <= n,
            forall|j: int| 0 <= j < i ==> a@[j] == b@[j],
        decreases n - i,
    {
        if a[i] != b.get_char(i) {
            return false;
        }
        i += 1;
    }
    assert(a@ =~= b@);
    true
}

/// The number of times `c` occurs in `s`.
pub open spec fn count_char(s: Seq<char>, c: char) -> nat
    decreases s.len(),
{
    if s.len() == 0 {
        0
    } else {
        count_char(s.drop_last(), c) + if s.last() == c {
            1nat
        } else {
            0nat
        }
    }
}

/// `s` without its first character, if that is `c`.
pub open spec fn strip_first(s: Seq<char>, c: char) -> Seq<char> {
    if s.len() > 0 && s[0] == c {
        s.skip(1)
    } else {
        s
    }
}

/// Whether `><` occurs in `s`.
pub open spec fn has_separator(s: Seq<char>) -> bool {
    exists|i: int| 0 <= i && i + 1 < s.len() && s[i] == '>' && #[trigger] s[i + 1] == '<'
}

/// The pieces of `s` between the occurrences of `><`, from the left.
pub open spec fn split_pieces(s: Seq<char>) -> Seq<Seq<char>>
    decreases s.len(),
{
    if s.len() < 2 {
        seq![s]
    } else if s[0] == '>' && s[1] == '<' {
        seq![Seq::<char>::empty()] + split_pieces(s.skip(2))
    } else {
        let rest = split_pieces(s.skip(1));
        rest.update(0, seq![s[0]] + rest[0])
    }
}

/// A piece without its opening `<`, or else without its closing `>`.
pub open spec fn strip_piece(p: Seq<char>) -> Seq<char> {
    if p.len() > 0 && p[0] == '<' {
        p.skip(1)
    } else if p.len() > 0 && p.last() == '>' {
        p.drop_last()
    } else {
        p
    }
}

/// Whether `c` is `l` or, for a lower-case ASCII letter `l`, its upper case.
pub open spec fn same_ignoring_case(c: char, l: char) -> bool {
    c == l || (97 <= (l as u32) <= 122 && (c as u32) + 32 == (l as u32))
}

/// Whether `p` starts with the lower-case ASCII text `lit`, ignoring case.
pub open spec fn starts_ignoring_case(p: Seq<char>, lit: Seq<char>) -> bool {
    p.len() >= lit.len() && forall|i: int| 0 <= i < lit.len() ==> same_ignoring_case(#[trigger] p[i], lit[i])
}

pub open spec fn ctrl_prefix() -> Seq<char> {
    seq!['c', 't', 'r', 'l', '-']
}

pub open spec fn alt_prefix() -> Seq<char> {
    seq!['a', 'l', 't', '-']
}

pub open spec fn shift_prefix() -> Seq<char> {
    seq!['s', 'h', 'i', 'f', 't', '-']
}

/// The leading modifier names of a key (`ctrl-`, `alt-`, `shift-`, in any case
/// and order) taken off: the rest of the text and the modifiers named.
pub open spec fn split_modifiers(p: Seq<char>) -> (Seq<char>, u8)
    decreases p.len(),
{
    if starts_ignoring_case(p, ctrl_prefix()) {
        let (r, m) = split_modifiers(p.skip(5));
        (r, m | CONTROL)
    } else if starts_ignoring_case(p, alt_prefix()) {
        let (r, m) = split_modifiers(p.skip(4));
        (r, m | ALT)
    } else if starts_ignoring_case(p, shift_prefix()) {
        let (r, m) = split_modifiers(p.skip(6));
        (r, m | SHIFT)
    } else {
        (p, 0)
    }
}

/// The upper case of an ASCII letter; any other character stays.
pub open spec fn ascii_upper(c: char) -> char {
    if c == 'a' {
        'A'
    }
    else if c == 'b' {
        'B'
    }
    else if c == 'c' {
        'C'
    }
    else if c == 'd' {
        'D'
    }
    else if c == 'e' {
        'E'
    }
    else if c == 'f' {
        'F'
    }
    else if c == 'g' {
        'G'
    }
    else if c == 'h' {
        'H'
    }
    else if c == 'i' {
        'I'
    }
    else if c == 'j' {
        'J'
    }
    else if c == 'k' {
        'K'
    }
    else if c == 'l' {
        'L'
    }
    else if c == 'm' {
        'M'
    }
    else if c == 'n' {
        'N'
    }
    else if c == 'o' {
        'O'
    }
    else if c == 'p' {
        'P'
    }
    else if c == 'q' {
        'Q'
    }
    else if c == 'r' {
        'R'
    }
    else if c == 's' {
        'S'
    }
    else if c == 't' {
        'T'
    }
    else if c == 'u' {
        'U'
    }
    else if c == 'v' {
        'V'
    }
    else if c == 'w' {
        'W'
    }
    else if c == 'x' {
        'X'
    }
    else if c == 'y' {
        'Y'
    }
    else if c == 'z' {
        'Z'
    }
    else {
        c
    }
}

fn to_ascii_upper(c: char) -> (r: char)
    ensures
        r == ascii_upper(c),
{
    match c {
        'a' => 'A',
        'b' => 'B',
        'c' => 'C',
        'd' => 'D',
        'e' => 'E',
        'f' => 'F',
        'g' => 'G',
        'h' => 'H',
        'i' => 'I',
        'j' => 'J',
        'k' => 'K',
        'l' => 'L',
        'm' => 'M',
        'n' => 'N',
        'o' => 'O',
        'p' => 'P',
        'q' => 'Q',
        'r' => 'R',
        's' => 'S',
        't' => 'T',
        'u' => 'U',
        'v' => 'V',
        'w' => 'W',
        'x' => 'X',
        'y' => 'Y',
        'z' => 'Z',
        _ => c,
    }
}

/// The message for a key name that names no key.
pub open spec fn unknown_key_message(raw: Seq<char>) -> Seq<char> {
    seq!['U', 'n', 'a', 'b', 'l', 'e', ' ', 't', 'o', ' ', 'p', 'a', 'r', 's', 'e', ' '] + raw
}

/// The key that a name denotes, given its lower case: a named key, or a
/// single ASCII character taken from the name as written (upper-cased when
/// shift is held).
pub open spec fn key_of_name(lower: Seq<char>, raw: Seq<char>, mods: u8) -> Result<KeyEvent, Seq<char>> {
    if lower == seq!['e', 's', 'c'] {
        Ok(KeyEvent { code: KeyCode::Esc, modifiers: mods })
    }
    else if lower == seq!['e', 'n', 't', 'e', 'r'] {
        Ok(KeyEvent { code: KeyCode::Enter, modifiers: mods })
    }
    else if lower == seq!['l', 'e', 'f', 't'] {
        Ok(KeyEvent { code: KeyCode::Left, modifiers: mods })
    }
    else if lower == seq!['r', 'i', 'g', 'h', 't'] {
        Ok(KeyEvent { code: KeyCode::Right, modifiers: mods })
    }
    else if lower == seq!['u', 'p'] {
        Ok(KeyEvent { code: KeyCode::Up, modifiers: mods })
    }
    else if lower == seq!['d', 'o', 'w', 'n'] {
        Ok(KeyEvent { code: KeyCode::Down, modifiers: mods })
    }
    else if lower == seq!['h', 'o', 'm', 'e'] {
        Ok(KeyEvent { code: KeyCode::Home, modifiers: mods })
    }
    else if lower == seq!['e', 'n', 'd'] {
        Ok(KeyEvent { code: KeyCode::End, modifiers: mods })
    }
    else if lower == seq!['p', 'a', 'g', 'e', 'u', 'p'] {
        Ok(KeyEvent { code: KeyCode::PageUp, modifiers: mods })
    }
    else if lower == seq!['p', 'a', 'g', 'e', 'd', 'o', 'w', 'n'] {
        Ok(KeyEvent { code: KeyCode::PageDown, modifiers: mods })
    }
    else if lower == seq!['b', 'a', 'c', 'k', 't', 'a', 'b'] {
        Ok(KeyEvent { code: KeyCode::BackTab, modifiers: mods | SHIFT })
    }
    else if lower == seq!['b', 'a', 'c', 'k', 's', 'p', 'a', 'c', 'e'] {
        Ok(KeyEvent { code: KeyCode::Backspace, modifiers: mods })
    }
    else if lower == seq!['d', 'e', 'l', 'e', 't', 'e'] {
        Ok(KeyEvent { code: KeyCode::Delete, modifiers: mods })
    }
    else if lower == seq!['i', 'n', 's', 'e', 'r', 't'] {
        Ok(KeyEvent { code: KeyCode::Insert, modifiers: mods })
    }
    else if lower == seq!['f', '1'] {
        Ok(KeyEvent { code: KeyCode::F(1), modifiers: mods })
    }
    else if lower == seq!['f', '2'] {
        Ok(KeyEvent { code: KeyCode::F(2), modifiers: mods })
    }
    else if lower == seq!['f', '3'] {
        Ok(KeyEvent { code: KeyCode::F(3), modifiers: mods })
    }
    else if lower == seq!['f', '4'] {
        Ok(KeyEvent { code: KeyCode::F(4), modifiers: mods })
    }
    else if lower == seq!['f', '5'] {
        Ok(KeyEvent { code: KeyCode::F(5), modifiers: mods })
    }
    else if lower == seq!['f', '6'] {
        Ok(KeyEvent { code: KeyCode::F(6), modifiers: mods })
    }
    else if lower == seq!['f', '7'] {
        Ok(KeyEvent { code: KeyCode::F(7), modifiers: mods })
    }
    else if lower == seq!['f', '8'] {
        Ok(KeyEvent { code: KeyCode::F(8), modifiers: mods })
    }
    else if lower == seq!['f', '9'] {
        Ok(KeyEvent { code: KeyCode::F(9), modifiers: mods })
    }
    else if lower == seq!['f', '1', '0'] {
        Ok(KeyEvent { code: KeyCode::F(10), modifiers: mods })
    }
    else if lower == seq!['f', '1', '1'] {
        Ok(KeyEvent { code: KeyCode::F(11), modifiers: mods })
    }
    else if lower == seq!['f', '1', '2'] {
        Ok(KeyEvent { code: KeyCode::F(12), modifiers: mods })
    }
    else if lower == seq!['s', 'p', 'a', 'c', 'e'] {
        Ok(KeyEvent { code: KeyCode::Char(' '), modifiers: mods })
    }
    else if lower == seq!['h', 'y', 'p', 'h', 'e', 'n'] {
        Ok(KeyEvent { code: KeyCode::Char('-'), modifiers: mods })
    }
    else if lower == seq!['m', 'i', 'n', 'u', 's'] {
        Ok(KeyEvent { code: KeyCode::Char('-'), modifiers: mods })
    }
    else if lower == seq!['t', 'a', 'b'] {
        Ok(KeyEvent { code: KeyCode::Tab, modifiers: mods })
    }
    else if lower.len() == 1 && (lower[0] as u32) < 128 && raw.len() > 0 {
        Ok(
            KeyEvent {
                code: KeyCode::Char(if mods & SHIFT != 0 { ascii_upper(raw[0]) } else { raw[0] }),
                modifiers: mods,
            },
        )
    } else {
        Err(unknown_key_message(raw))
    }
}

/// The key press that one piece of a key sequence denotes.
pub open spec fn key_of_piece(p: Seq<char>) -> Result<KeyEvent, Seq<char>> {
    let (rest, mods) = split_modifiers(p);
    key_of_name(lower_of(rest), rest, mods)
}

/// The key presses of a run of parsed pieces, or the first error among them.
pub open spec fn collect_keys(s: Seq<Result<KeyEvent, Seq<char>>>) -> Result<Seq<KeyEvent>, Seq<char>>
    decreases s.len(),
{
    if s.len() == 0 {
        Ok(Seq::empty())
    } else {
        match collect_keys(s.drop_last()) {
            Err(e) => Err(e),
            Ok(ks) => match s.last() {
                Ok(k) => Ok(ks.push(k)),
                Err(e) => Err(e),
            },
        }
    }
}

/// The text that is split into pieces: without `><` in it, a leading `<` and
/// then a leading `>` are taken off.
pub open spec fn sequence_body(raw: Seq<char>) -> Seq<char> {
    if has_separator(raw) {
        raw
    } else {
        strip_first(strip_first(raw, '<'), '>')
    }
}

/// The message for a sequence whose angle brackets do not pair up.
pub open spec fn unbalanced_message(raw: Seq<char>) -> Seq<char> {
    seq!['U', 'n', 'a', 'b', 'l', 'e', ' ', 't', 'o', ' ', 'p', 'a', 'r', 's', 'e', ' ', '`'] + raw + seq!['`']
}

/// What a configured key sequence such as `<ctrl-a><b>` or `gg` denotes.
pub open spec fn parse_sequence(raw: Seq<char>) -> Result<Seq<KeyEvent>, Seq<char>> {
    if count_char(raw, '>') != count_char(raw, '<') {
        Err(unbalanced_message(raw))
    } else {
        collect_keys(split_pieces(sequence_body(raw)).map_values(|p: Seq<char>| key_of_piece(strip_piece(p))))
    }
}

/// Relies on `String::from_iter` over characters: the text made of them, in order.
#[verifier::external_body]
fn text_from_chars(v: &Vec<char>) -> (r: String)
    ensures
        r@ == v@,
{
    v.iter().collect()
}

fn count_in(s: &Vec<char>, c: char) -> (r: usize)
    ensures
        r == count_char(s@, c),
{
    let mut n: usize = 0;
    let mut i: usize = 0;
    while i < s.len()
        invariant
            i <= s@.len(),
            n == count_char(s@.take(i as int), c),
            n <= i,
        decreases s@.len() - i,
    {
        assert(s@.take(i + 1).drop_last() =~= s@.take(i as int));
        if s[i] == c {
            n += 1;
        }
        i += 1;
    }
    assert(s@.take(i as int) =~= s@);
    n
}

fn has_separator_in(s: &Vec<char>) -> (r: bool)
    ensures
        r == has_separator(s@),
{
    let mut i: usize = 0;
    while i < s.len()
        invariant
            i <= s@.len(),
            forall|j: int| 0 <= j < i && j + 1 < s@.len() ==> !(s@[j] == '>' && #[trigger] s@[j + 1] == '<'),
        decreases s@.len() - i,
    {
        if i + 1 < s.len() && s[i] == '>' && s[i + 1] == '<' {
            assert(s@[i + 1] == '<');
            return true;
        }
        i += 1;
    }
    proof {
        assert forall|j: int| 0 <= j && j + 1 < s@.len() && s@[j] == '>' implies #[trigger] s@[j + 1] != '<' by {
            assert(j < i);
        }
    }
    false
}

fn skip_chars(p: &Vec<char>, n: usize) -> (r: Vec<char>)
    requires
        n <= p@.len(),
    ensures
        r@ == p@.skip(n as int),
{
    let mut r: Vec<char> = Vec::new();
    let mut i: usize = n;
    while i < p.len()
        invariant
            n <= i <= p@.len(),
            r@ == p@.subrange(n as int, i as int),
        decreases p@.len() - i,
    {
        r.push(p[i]);
        i += 1;
        assert(r@ =~= p@.subrange(n as int, i as int));
    }
    assert(r@ =~= p@.skip(n as int));
    r
}

fn strip_first_of(s: Vec<char>, c: char) -> (r: Vec<char>)
    ensures
        r@ == strip_first(s@, c),
{
    if s.len() > 0 && s[0] == c {
        skip_chars(&s, 1)
    } else {
        s
    }
}

fn strip_piece_of(p: Vec<char>) -> (r: Vec<char>)
    ensures
        r@ == strip_piece(p@),
{
    if p.len() > 0 && p[0] == '<' {
        skip_chars(&p, 1)
    } else if p.len() > 0 && p[p.len() - 1] == '>' {
        let mut q = p;
        q.pop();
        assert(q@ =~= p@.drop_last());
        q
    } else {
        p
    }
}

proof fn lemma_split_nonempty(s: Seq<char>)
    ensures
        split_pieces(s).len() >= 1,
    decreases s.len(),
{
    if s.len() >= 2 {
        if s[0] == '>' && s[1] == '<' {
            lemma_split_nonempty(s.skip(2));
        } else {
            lemma_split_nonempty(s.skip(1));
        }
    }
}

/// The pieces of `s[i..]` between the occurrences of `><`.
fn split_from(s: &Vec<char>, i: usize) -> (r: Vec<Vec<char>>)
    requires
        i <= s@.len(),
    ensures
        r@.map_values(|v: Vec<char>| v@) == split_pieces(s@.skip(i as int)),
    decreases s@.len() - i,
{
    let ghost t = s@.skip(i as int);
    if s.len() - i < 2 {
        let mut r: Vec<Vec<char>> = Vec::new();
        r.push(skip_chars(s, i));
        assert(r@.map_values(|v: Vec<char>| v@) =~= seq![t]);
        r
    } else if s[i] == '>' && s[i + 1] == '<' {
        let mut rest = split_from(s, i + 2);
        let ghost old_rest = rest@;
        rest.insert(0, Vec::new());
        proof {
            assert(t.skip(2) =~= s@.skip(i + 2));
            assert(rest@.map_values(|v: Vec<char>| v@) =~= seq![Seq::<char>::empty()] + old_rest.map_values(
                |v: Vec<char>| v@,
            ));
        }
        rest
    } else {
        let mut rest = split_from(s, i + 1);
        proof {
            assert(t.skip(1) =~= s@.skip(i + 1));
            lemma_split_nonempty(t.skip(1));
        }
        let ghost old_rest = rest@;
        let mut first = rest.remove(0);
        first.insert(0, s[i]);
        rest.insert(0, first);
        proof {
            let sp = split_pieces(t.skip(1));
            assert(old_rest.map_values(|v: Vec<char>| v@) == sp);
            assert(old_rest.len() == sp.len());
            assert(old_rest[0]@ == sp[0]);
            assert(t[0] == s@[i as int]);
            assert(rest@[0]@ =~= seq![t[0]] + sp[0]);
            assert forall|j: int| 1 <= j < sp.len() implies rest@[j]@ == sp[j] by {
                assert(rest@[j] == old_rest[j]);
                assert(old_rest.map_values(|v: Vec<char>| v@)[j] == sp[j]);
            }
            assert(rest@.map_values(|v: Vec<char>| v@) =~= sp.update(0, seq![t[0]] + sp[0]));
        }
        rest
    }
}

/// The characters of a lower-case ASCII literal.
fn literal(s: &str) -> (r: Vec<char>)
    ensures
        r@ == s@,
{
    chars_of(s)
}

fn starts_ignoring_case_with(p: &Vec<char>, lit: &Vec<char>) -> (r: bool)
    ensures
        r == starts_ignoring_case(p@, lit@),
{
    if p.len() < lit.len() {
        return false;
    }
    let mut i: usize = 0;
    while i < lit.len()
        invariant
            p@.len() >= lit@.len(),
            i <= lit@.len(),
            forall|j: int| 0 <= j < i ==> same_ignoring_case(#[trigger] p@[j], lit@[j]),
        decreases lit@.len() - i,
    {
        let c = p[i];
        let l = lit[i];
        let same = c == l || (97 <= (l as u32) && (l as u32) <= 122 && (c as u32) == (l as u32) - 32);
        if !same {
            return false;
        }
        i += 1;
    }
    true
}

fn split_modifiers_of(p: Vec<char>) -> (r: (Vec<char>, u8))
    ensures
        (r.0@, r.1) == split_modifiers(p@),
    decreases p@.len(),
{
    let ctrl = literal("ctrl-");
    let alt = literal("alt-");
    let shift = literal("shift-");
    proof {
        reveal_strlit("ctrl-");
        reveal_strlit("alt-");
        reveal_strlit("shift-");
        assert(ctrl@ =~= ctrl_prefix());
        assert(alt@ =~= alt_prefix());
        assert(shift@ =~= shift_prefix());
    }
    if starts_ignoring_case_with(&p, &ctrl) {
        let (r, m) = split_modifiers_of(skip_chars(&p, 5));
        (r, m | CONTROL)
    } else if starts_ignoring_case_with(&p, &alt) {
        let (r, m) = split_modifiers_of(skip_chars(&p, 4));
        (r, m | ALT)
    } else if starts_ignoring_case_with(&p, &shift) {
        let (r, m) = split_modifiers_of(skip_chars(&p, 6));
        (r, m | SHIFT)
    } else {
        (p, 0)
    }
}

fn key_of_name_in(lower: Vec<char>, raw: &Vec<char>, mods: u8) -> (r: Result<KeyEvent, String>)
    ensures
        match r {
            Ok(k) => key_of_name(lower@, raw@, mods) == Ok::<KeyEvent, Seq<char>>(k),
            Err(e) => key_of_name(lower@, raw@, mods) == Err::<KeyEvent, Seq<char>>(e@),
        },
{
    proof {
        reveal_strlit("esc");
        assert("esc"@ =~= seq!['e', 's', 'c']);
        reveal_strlit("enter");
        assert("enter"@ =~= seq!['e', 'n', 't', 'e', 'r']);
        reveal_strlit("left");
        assert("left"@ =~= seq!['l', 'e', 'f', 't']);
        reveal_strlit("right");
        assert("right"@ =~= seq!['r', 'i', 'g', 'h', 't']);
        reveal_strlit("up");
        assert("up"@ =~= seq!['u', 'p']);
        reveal_strlit("down");
        assert("down"@ =~= seq!['d', 'o', 'w', 'n']);
        reveal_strlit("home");
        assert("home"@ =~= seq!['h', 'o', 'm', 'e']);
        reveal_strlit("end");
        assert("end"@ =~= seq!['e', 'n', 'd']);
        reveal_strlit("pageup");
        assert("pageup"@ =~= seq!['p', 'a', 'g', 'e', 'u', 'p']);
        reveal_strlit("pagedown");
        assert("pagedown"@ =~= seq!['p', 'a', 'g', 'e', 'd', 'o', 'w', 'n']);
        reveal_strlit("backtab");
        assert("backtab"@ =~= seq!['b', 'a', 'c', 'k', 't', 'a', 'b']);
        reveal_strlit("backspace");
        assert("backspace"@ =~= seq!['b', 'a', 'c', 'k', 's', 'p', 'a', 'c', 'e']);
        reveal_strlit("delete");
        assert("delete"@ =~= seq!['d', 'e', 'l', 'e', 't', 'e']);
        reveal_strlit("insert");
        assert("insert"@ =~= seq!['i', 'n', 's', 'e', 'r', 't']);
        reveal_strlit("f1");
        assert("f1"@ =~= seq!['f', '1']);
        reveal_strlit("f2");
        assert("f2"@ =~= seq!['f', '2']);
        reveal_strlit("f3");
        assert("f3"@ =~= seq!['f', '3']);
        reveal_strlit("f4");
        assert("f4"@ =~= seq!['f', '4']);
        reveal_strlit("f5");
        assert("f5"@ =~= seq!['f', '5']);
        reveal_strlit("f6");
        assert("f6"@ =~= seq!['f', '6']);
        reveal_strlit("f7");
        assert("f7"@ =~= seq!['f', '7']);
        reveal_strlit("f8");
        assert("f8"@ =~= seq!['f', '8']);
        reveal_strlit("f9");
        assert("f9"@ =~= seq!['f', '9']);
        reveal_strlit("f10");
        assert("f10"@ =~= seq!['f', '1', '0']);
        reveal_strlit("f11");
        assert("f11"@ =~= seq!['f', '1', '1']);
        reveal_strlit("f12");
        assert("f12"@ =~= seq!['f', '1', '2']);
        reveal_strlit("space");
        assert("space"@ =~= seq!['s', 'p', 'a', 'c', 'e']);
        reveal_strlit("hyphen");
        assert("hyphen"@ =~= seq!['h', 'y', 'p', 'h', 'e', 'n']);
        reveal_strlit("minus");
        assert("minus"@ =~= seq!['m', 'i', 'n', 'u', 's']);
        reveal_strlit("tab");
        assert("tab"@ =~= seq!['t', 'a', 'b']);
    }
    if same_text(&lower, "esc") {
        proof {
            reveal_strlit("esc");
            assert("esc"@ =~= seq!['e', 's', 'c']);
        }
        Ok(KeyEvent { code: KeyCode::Esc, modifiers: mods })
    } else if same_text(&lower, "enter") {
        proof {
            reveal_strlit("enter");
            assert("enter"@ =~= seq!['e', 'n', 't', 'e', 'r']);
        }
        Ok(KeyEvent { code: KeyCode::Enter, modifiers: mods })
    } else if same_text(&lower, "left") {
        proof {
            reveal_strlit("left");
            assert("left"@ =~= seq!['l', 'e', 'f', 't']);
        }
        Ok(KeyEvent { code: KeyCode::Left, modifiers: mods })
    } else if same_text(&lower, "right") {
        proof {
            reveal_strlit("right");
            assert("right"@ =~= seq!['r', 'i', 'g', 'h', 't']);
        }
        Ok(KeyEvent { code: KeyCode::Right, modifiers: mods })
    } else if same_text(&lower, "up") {
        proof {
            reveal_strlit("up");
            assert("up"@ =~= seq!['u', 'p']);
        }
        Ok(KeyEvent { code: KeyCode::Up, modifiers: mods })
    } else if same_text(&lower, "down") {
        proof {
            reveal_strlit("down");
            assert("down"@ =~= seq!['d', 'o', 'w', 'n']);
        }
        Ok(KeyEvent { code: KeyCode::Down, modifiers: mods })
    } else if same_text(&lower, "home") {
        proof {
            reveal_strlit("home");
            assert("home"@ =~= seq!['h', 'o', 'm', 'e']);
        }
        Ok(KeyEvent { code: KeyCode::Home, modifiers: mods })
    } else if same_text(&lower, "end") {
        proof {
            reveal_strlit("end");
            assert("end"@ =~= seq!['e', 'n', 'd']);
        }
        Ok(KeyEvent { code: KeyCode::End, modifiers: mods })
    } else if same_text(&lower, "pageup") {
        proof {
            reveal_strlit("pageup");
            assert("pageup"@ =~= seq!['p', 'a', 'g', 'e', 'u', 'p']);
        }
        Ok(KeyEvent { code: KeyCode::PageUp, modifiers: mods })
    } else if same_text(&lower, "pagedown") {
        proof {
            reveal_strlit("pagedown");
            assert("pagedown"@ =~= seq!['p', 'a', 'g', 'e', 'd', 'o', 'w', 'n']);
        }
        Ok(KeyEvent { code: KeyCode::PageDown, modifiers: mods })
    } else if same_text(&lower, "backtab") {
        proof {
            reveal_strlit("backtab");
            assert("backtab"@ =~= seq!['b', 'a', 'c', 'k', 't', 'a', 'b']);
        }
        Ok(KeyEvent { code: KeyCode::BackTab, modifiers: mods | SHIFT })
    } else if same_text(&lower, "backspace") {
        proof {
            reveal_strlit("backspace");
            assert("backspace"@ =~= seq!['b', 'a', 'c', 'k', 's', 'p', 'a', 'c', 'e']);
        }
        Ok(KeyEvent { code: KeyCode::Backspace, modifiers: mods })
    } else if same_text(&lower, "delete") {
        proof {
            reveal_strlit("delete");
            assert("delete"@ =~= seq!['d', 'e', 'l', 'e', 't', 'e']);
        }
        Ok(KeyEvent { code: KeyCode::Delete, modifiers: mods })
    } else if same_text(&lower, "insert") {
        proof {
            reveal_strlit("insert");
            assert("insert"@ =~= seq!['i', 'n', 's', 'e', 'r', 't']);
        }
        Ok(KeyEvent { code: KeyCode::Insert, modifiers: mods })
    } else if same_text(&lower, "f1") {
        proof {
            reveal_strlit("f1");
            assert("f1"@ =~= seq!['f', '1']);
        }
        Ok(KeyEvent { code: KeyCode::F(1), modifiers: mods })
    } else if same_text(&lower, "f2") {
        proof {
            reveal_strlit("f2");
            assert("f2"@ =~= seq!['f', '2']);
        }
        Ok(KeyEvent { code: KeyCode::F(2), modifiers: mods })
    } else if same_text(&lower, "f3") {
        proof {
            reveal_strlit("f3");
            assert("f3"@ =~= seq!['f', '3']);
        }
        Ok(KeyEvent { code: KeyCode::F(3), modifiers: mods })
    } else if same_text(&lower, "f4") {
        proof {
            reveal_strlit("f4");
            assert("f4"@ =~= seq!['f', '4']);
        }
        Ok(KeyEvent { code: KeyCode::F(4), modifiers: mods })
    } else if same_text(&lower, "f5") {
        proof {
            reveal_strlit("f5");
            assert("f5"@ =~= seq!['f', '5']);
        }
        Ok(KeyEvent { code: KeyCode::F(5), modifiers: mods })
    } else if same_text(&lower, "f6") {
        proof {
            reveal_strlit("f6");
            assert("f6"@ =~= seq!['f', '6']);
        }
        Ok(KeyEvent { code: KeyCode::F(6), modifiers: mods })
    } else if same_text(&lower, "f7") {
        proof {
            reveal_strlit("f7");
            assert("f7"@ =~= seq!['f', '7']);
        }
        Ok(KeyEvent { code: KeyCode::F(7), modifiers: mods })
    } else if same_text(&lower, "f8") {
        proof {
            reveal_strlit("f8");
            assert("f8"@ =~= seq!['f', '8']);
        }
        Ok(KeyEvent { code: KeyCode::F(8), modifiers: mods })
    } else if same_text(&lower, "f9") {
        proof {
            reveal_strlit("f9");
            assert("f9"@ =~= seq!['f', '9']);
        }
        Ok(KeyEvent { code: KeyCode::F(9), modifiers: mods })
    } else if same_text(&lower, "f10") {
        proof {
            reveal_strlit("f10");
            assert("f10"@ =~= seq!['f', '1', '0']);
        }
        Ok(KeyEvent { code: KeyCode::F(10), modifiers: mods })
    } else if same_text(&lower, "f11") {
        proof {
            reveal_strlit("f11");
            assert("f11"@ =~= seq!['f', '1', '1']);
        }
        Ok(KeyEvent { code: KeyCode::F(11), modifiers: mods })
    } else if same_text(&lower, "f12") {
        proof {
            reveal_strlit("f12");
            assert("f12"@ =~= seq!['f', '1', '2']);
        }
        Ok(KeyEvent { code: KeyCode::F(12), modifiers: mods })
    } else if same_text(&lower, "space") {
        proof {
            reveal_strlit("space");
            assert("space"@ =~= seq!['s', 'p', 'a', 'c', 'e']);
        }
        Ok(KeyEvent { code: KeyCode::Char(' '), modifiers: mods })
    } else if same_text(&lower, "hyphen") {
        proof {
            reveal_strlit("hyphen");
            assert("hyphen"@ =~= seq!['h', 'y', 'p', 'h', 'e', 'n']);
        }
        Ok(KeyEvent { code: KeyCode::Char('-'), modifiers: mods })
    } else if same_text(&lower, "minus") {
        proof {
            reveal_strlit("minus");
            assert("minus"@ =~= seq!['m', 'i', 'n', 'u', 's']);
        }
        Ok(KeyEvent { code: KeyCode::Char('-'), modifiers: mods })
    } else if same_text(&lower, "tab") {
        proof {
            reveal_strlit("tab");
            assert("tab"@ =~= seq!['t', 'a', 'b']);
        }
        Ok(KeyEvent { code: KeyCode::Tab, modifiers: mods })
    } else if lower.len() == 1 && (lower[0] as u32) < 128 && raw.len() > 0 {
        let c = if mods & SHIFT != 0 {
            to_ascii_upper(raw[0])
        } else {
            raw[0]
        };
        Ok(KeyEvent { code: KeyCode::Char(c), modifiers: mods })
    } else {
        let e = <String as StringExecFns>::from_str("Unable to parse ").concat(text_from_chars(raw).as_str());
        proof {
            reveal_strlit("Unable to parse ");
            assert(e@ =~= unknown_key_message(raw@));
        }
        Err(e)
    }
}

/// Parses one piece of a key sequence, such as `ctrl-a` or `Enter`.
fn parse_key_event(piece: Vec<char>) -> (r: Result<KeyEvent, String>)
    ensures
        match r {
            Ok(k) => key_of_piece(piece@) == Ok::<KeyEvent, Seq<char>>(k),
            Err(e) => key_of_piece(piece@) == Err::<KeyEvent, Seq<char>>(e@),
        },
{
    let (rest, mods) = split_modifiers_of(piece);
    let lower = chars_of(to_lower(text_from_chars(&rest).as_str()).as_str());
    key_of_name_in(lower, &rest, mods)
}

proof fn lemma_collect_err_prefix(s: Seq<Result<KeyEvent, Seq<char>>>, n: int)
    requires
        0 <= n <= s.len(),
        collect_keys(s.take(n)) is Err,
    ensures
        collect_keys(s) == collect_keys(s.take(n)),
    decreases s.len() - n,
{
    if n < s.len() {
        assert(s.take(n + 1).drop_last() =~= s.take(n));
        lemma_collect_err_prefix(s, n + 1);
    } else {
        assert(s.take(n) =~= s);
    }
}

/// Parses a configured key sequence: `<ctrl-a><b>` is two presses, `<q>` or
/// `q` is one, and a text with no `><` is one key name. Angle brackets that do
/// not pair up, or a key name that names no key, give an error message.
pub fn parse_key_sequence(raw: &str) -> (r: Result<Vec<KeyEvent>, String>)
    ensures
        match r {
            Ok(v) => parse_sequence(raw@) == Ok::<Seq<KeyEvent>, Seq<char>>(v@),
            Err(e) => parse_sequence(raw@) == Err::<Seq<KeyEvent>, Seq<char>>(e@),
        },
{
    let chars = chars_of(raw);
    if count_in(&chars, '>') != count_in(&chars, '<') {
        let e = <String as StringExecFns>::from_str("Unable to parse `").concat(raw).concat("`");
        proof {
            reveal_strlit("Unable to parse `");
            reveal_strlit("`");
            assert(e@ =~= unbalanced_message(raw@));
        }
        return Err(e);
    }
    let body = if has_separator_in(&chars) {
        chars
    } else {
        strip_first_of(strip_first_of(chars, '<'), '>')
    };
    let pieces = split_from(&body, 0);
    assert(body@.skip(0) =~= body@);
    let ghost views = pieces@.map_values(|v: Vec<char>| v@);
    let ghost parsed = views.map_values(|p: Seq<char>| key_of_piece(strip_piece(p)));
    assert(split_pieces(body@) == views);
    let mut keys: Vec<KeyEvent> = Vec::new();
    let mut i: usize = 0;
    while i < pieces.len()
        invariant
            i <= pieces@.len(),
            views == pieces@.map_values(|v: Vec<char>| v@),
            parsed == views.map_values(|p: Seq<char>| key_of_piece(strip_piece(p))),
            parsed.len() == pieces@.len(),
            body@ == sequence_body(raw@),
            split_pieces(body@) == views,
            count_char(raw@, '>') == count_char(raw@, '<'),
            collect_keys(parsed.take(i as int)) == Ok::<Seq<KeyEvent>, Seq<char>>(keys@),
        decreases pieces@.len() - i,
    {
        assert(parsed.take(i + 1).drop_last() =~= parsed.take(i as int));
        let piece = strip_piece_of(copy_chars(&pieces[i]));
        assert(views[i as int] == pieces@[i as int]@);
        assert(parsed[i as int] == key_of_piece(strip_piece(views[i as int])));
        assert(parsed.take(i + 1).last() == parsed[i as int]);
        match parse_key_event(piece) {
            Ok(k) => {
                keys.push(k);
            },
            Err(e) => {
                proof {
                    assert(collect_keys(parsed.take(i + 1)) == Err::<Seq<KeyEvent>, Seq<char>>(e@));
                    lemma_collect_err_prefix(parsed, i + 1);
                    assert(collect_keys(parsed) == Err::<Seq<KeyEvent>, Seq<char>>(e@));
                }
                return Err(e);
            },
        }
        i += 1;
    }
    assert(parsed.take(i as int) =~= parsed);
    Ok(keys)
}

fn copy_chars(v: &Vec<char>) -> (r: Vec<char>)
    ensures
        r@ == v@,
{
    let mut r: Vec<char> = Vec::new();
    let mut i: usize = 0;
    while i < v.len()
        invariant
            i <= v@.len(),
            r@ == v@.take(i as int),
        decreases v@.len() - i,
    {
        r.push(v[i]);
        i += 1;
        assert(r@ =~= v@.take(i as int));
    }
    assert(v@.take(i as int) =~= v@);
    r
}

} // verus!
