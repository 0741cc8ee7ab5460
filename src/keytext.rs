use vstd::prelude::*;
use vstd::string::StringExecFns;

use crate::keys::{KeyCode, KeyEvent, ALT, CONTROL, SHIFT};

verus! {

/// Relies on `String::from(char)`: the text made of that one character.
#[verifier::external_body]
fn char_text(c: char) -> (r: String)
    ensures
        r@ == seq![c],
{
    String::from(c)
}

/// The decimal digits of `n`.
pub open spec fn decimal(n: nat) -> Seq<char>
    decreases n,
{
    if n < 10 {
        seq![digit_char(n)]
    } else {
        decimal(n / 10) + seq![digit_char(n % 10)]
    }
}

pub open spec fn digit_char(d: nat) -> char {
    if d == 0 { '0' } else if d == 1 { '1' } else if d == 2 { '2' } else if d == 3 { '3' }
    else if d == 4 { '4' } else if d == 5 { '5' } else if d == 6 { '6' } else if d == 7 { '7' }
    else if d == 8 { '8' } else { '9' }
}

fn digit(d: u8) -> (r: char)
    requires
        d < 10,
    ensures
        r == digit_char(d as nat),
{
    if d == 0 { '0' } else if d == 1 { '1' } else if d == 2 { '2' } else if d == 3 { '3' }
    else if d == 4 { '4' } else if d == 5 { '5' } else if d == 6 { '6' } else if d == 7 { '7' }
    else if d == 8 { '8' } else { '9' }
}

fn decimal_text(n: u8) -> (r: String)
    ensures
        r@ == decimal(n as nat),
{
    if n < 10 {
        char_text(digit(n))
    } else if n < 100 {
        proof {
            assert(decimal((n / 10) as nat) == seq![digit_char((n / 10) as nat)]);
        }
        char_text(digit(n / 10)).concat(char_text(digit(n % 10)).as_str())
    } else {
        let hundreds = n / 100;
        let tens = (n / 10) % 10;
        proof {
            assert((n / 10) / 10 == hundreds);
            assert(decimal(((n / 10) / 10) as nat) == seq![digit_char(hundreds as nat)]);
            assert(decimal((n / 10) as nat) == decimal(((n / 10) / 10) as nat) + seq![digit_char(tens as nat)]);
        }
        char_text(digit(hundreds)).concat(char_text(digit(tens)).as_str()).concat(
            char_text(digit(n % 10)).as_str(),
        )
    }
}

/// The name of a key, as key bindings show it; keys without a name show as
/// the empty text.
pub open spec fn code_text(code: KeyCode) -> Seq<char> {
    match code {
        KeyCode::Backspace => "Backspace"@,
        KeyCode::Enter => "Enter"@,
        KeyCode::Left => "Left"@,
        KeyCode::Right => "Right"@,
        KeyCode::Up => "Up"@,
        KeyCode::Down => "Down"@,
        KeyCode::Home => "Home"@,
        KeyCode::End => "End"@,
        KeyCode::PageUp => "PageUp"@,
        KeyCode::PageDown => "PageDown"@,
        KeyCode::Tab => "Tab"@,
        KeyCode::BackTab => "Backtab"@,
        KeyCode::Delete => "Delete"@,
        KeyCode::Insert => "Insert"@,
        KeyCode::F(n) => "F("@ + decimal(n as nat) + ")"@,
        KeyCode::Char(c) => if c == ' ' {
            "Space"@
        } else {
            seq![c]
        },
        KeyCode::Esc => "Esc"@,
        _ => Seq::<char>::empty(),
    }
}

/// The held modifiers, named in the order control, shift, alt, each followed by `-`.
pub open spec fn modifier_text(m: u8) -> Seq<char> {
    (if m & CONTROL != 0 { "Ctrl-"@ } else { Seq::<char>::empty() }) + (if m & SHIFT != 0 { "Shift-"@ } else { Seq::<char>::empty() })
        + (if m & ALT != 0 { "Alt-"@ } else { Seq::<char>::empty() })
}

/// A key press as key bindings show it, such as `Ctrl-Shift-a`.
pub open spec fn key_text(k: KeyEvent) -> Seq<char> {
    modifier_text(k.modifiers) + code_text(k.code)
}

fn code_to_string(code: KeyCode) -> (r: String)
    ensures
        r@ == code_text(code),
{
    let s = |t: &str| -> (r: String)
        ensures
            r@ == t@,
        { <String as StringExecFns>::from_str(t) };
    match code {
        KeyCode::Backspace => s("Backspace"),
        KeyCode::Enter => s("Enter"),
        KeyCode::Left => s("Left"),
        KeyCode::Right => s("Right"),
        KeyCode::Up => s("Up"),
        KeyCode::Down => s("Down"),
        KeyCode::Home => s("Home"),
        KeyCode::End => s("End"),
        KeyCode::PageUp => s("PageUp"),
        KeyCode::PageDown => s("PageDown"),
        KeyCode::Tab => s("Tab"),
        KeyCode::BackTab => s("Backtab"),
        KeyCode::Delete => s("Delete"),
        KeyCode::Insert => s("Insert"),
        KeyCode::F(n) => s("F(").concat(decimal_text(n).as_str()).concat(")"),
        KeyCode::Char(c) => if c == ' ' {
            s("Space")
        } else {
            char_text(c)
        },
        KeyCode::Esc => s("Esc"),
        _ => String::new(),
    }
}

/// A key sequence as key bindings show it: the presses one after another.
pub open spec fn keys_text(ks: Seq<KeyEvent>) -> Seq<char>
    decreases ks.len(),
{
    if ks.len() == 0 {
        Seq::empty()
    } else {
        keys_text(ks.drop_last()) + key_text(ks.last())
    }
}

/// Shows a key sequence, the presses one after another.
pub fn keys_to_string(ks: &Vec<KeyEvent>) -> (r: String)
    ensures
        r@ == keys_text(ks@),
{
    let mut r = String::new();
    let mut i: usize = 0;
    while i < ks.len()
        invariant
            i <= ks@.len(),
            r@ == keys_text(ks@.take(i as int)),
        decreases ks@.len() - i,
    {
        assert(ks@.take(i + 1).drop_last() =~= ks@.take(i as int));
        let t = key_event_to_string(&ks[i]);
        r.append(t.as_str());
        i += 1;
    }
    assert(ks@.take(i as int) =~= ks@);
    r
}

/// Shows a key press as key bindings name it: the held modifiers, each
/// followed by `-`, then the key.
pub fn key_event_to_string(key_event: &KeyEvent) -> (r: String)
    ensures
        r@ == key_text(*key_event),
{
    let mut key = String::new();
    if key_event.modifiers & CONTROL != 0 {
        key.append("Ctrl-");
    }
    if key_event.modifiers & SHIFT != 0 {
        key.append("Shift-");
    }
    if key_event.modifiers & ALT != 0 {
        key.append("Alt-");
    }
    let code = code_to_string(key_event.code);
    key.append(code.as_str());
    proof {
        assert(key@ =~= key_text(*key_event));
    }
    key
}

} // verus!
