//! The QEMU console: where its D-Bus object lives, and when the display
//! listener stops serving.

use vstd::prelude::*;
use crate::decimal::{
    decimal, digits_value, is_canonical_decimal, is_digit, lemma_decimal_digits,
    lemma_decimal_injective, lemma_decimal_unique, lemma_decimal_value, push_decimal,
};

verus! {

/// The object path of every console, followed by the console's index.
pub open spec fn console_path_prefix() -> Seq<char> {
    "/org/qemu/Display1/Console_"@
}

/// The object path of console number `idx`.
pub open spec fn console_path(idx: nat) -> Seq<char> {
    console_path_prefix() + decimal(idx)
}

/// A character that may stand in a D-Bus object path.
pub open spec fn is_path_char(c: char) -> bool {
    ||| ('a' <= c <= 'z')
    ||| ('A' <= c <= 'Z')
    ||| ('0' <= c <= '9')
    ||| c == '_'
    ||| c == '/'
}

/// The D-Bus object path grammar: a `/`, then elements of ASCII letters,
/// digits and `_`, separated by single `/`, with no trailing `/` but for
/// the root path itself.
pub open spec fn is_object_path(s: Seq<char>) -> bool {
    &&& s.len() >= 1
    &&& s[0] == '/'
    &&& forall|i: int| 0 <= i < s.len() ==> is_path_char(#[trigger] s[i])
    &&& forall|i: int, j: int|
        0 <= i && j == i + 1 && j < s.len() ==> !(#[trigger] s[i] == '/' && #[trigger] s[j] == '/')
    &&& (s.len() == 1 || s.last() != '/')
}

#[verifier::external_type_specification]
#[verifier::external_body]
pub struct ExObjectPath<'a>(zvariant::ObjectPath<'a>);

#[verifier::external_type_specification]
#[verifier::external_body]
pub struct ExVariantError(zvariant::Error);

/// Calls `zvariant::ObjectPath::try_from(&str)`, which accepts its argument
/// exactly when it follows the object path grammar (`is_object_path`): the
/// crate checks it with a parser for `/` followed by `/`-separated
/// non-empty runs of ASCII alphanumerics and `_`, consuming the whole text.
#[verifier::external_body]
fn object_path_from_str<'a>(text: &'a str) -> (r: Result<zvariant::ObjectPath<'a>, zvariant::Error>)
    ensures
        r is Ok <==> is_object_path(text@),
{
    zvariant::ObjectPath::try_from(text)
}

/// Why a console's object path was refused.
#[derive(Debug, PartialEq, Eq, Structural)]
pub enum ConsolePathError {
    InvalidObjectPath,
}

/// Every console path is a valid D-Bus object path.
pub proof fn lemma_console_path_valid(idx: nat)
    ensures
        is_object_path(console_path(idx)),
{
    reveal_strlit("/org/qemu/Display1/Console_");
    let pre = console_path_prefix();
    let d = decimal(idx);
    let s = console_path(idx);
    lemma_decimal_digits(idx);
    assert(pre.len() == 27);
    assert forall|i: int| 0 <= i < s.len() implies is_path_char(#[trigger] s[i]) by {
        if i < 27 {
            assert(s[i] == pre[i]);
        } else {
            assert(s[i] == d[i - 27]);
            assert(is_digit(d[i - 27]));
        }
    }
    assert forall|i: int, j: int|
        0 <= i && j == i + 1 && j < s.len() implies !(#[trigger] s[i] == '/' && #[trigger] s[j] == '/') by {
        if j < 27 {
            assert(s[i] == pre[i]);
            assert(s[j] == pre[j]);
        } else {
            assert(s[j] == d[j - 27]);
            assert(is_digit(d[j - 27]));
        }
    }
    assert(s.last() == d[d.len() - 1]);
    assert(is_digit(d[d.len() - 1]));
}

/// The path of console `idx` is the console prefix followed by the one
/// canonical decimal numeral whose value is `idx`: its tail is a digit
/// string without leading zero that reads as `idx`, and any such string
/// after the prefix is that path.
pub proof fn lemma_console_path_denotes_index(idx: nat, digits: Seq<char>)
    ensures
        console_path(idx).subrange(0, console_path_prefix().len() as int) == console_path_prefix(),
        is_canonical_decimal(console_path(idx).skip(console_path_prefix().len() as int)),
        digits_value(console_path(idx).skip(console_path_prefix().len() as int)) == idx,
        is_canonical_decimal(digits) && digits_value(digits) == idx ==> console_path(idx)
            == console_path_prefix() + digits,
{
    let pre = console_path_prefix();
    assert(console_path(idx).subrange(0, pre.len() as int) =~= pre);
    assert(console_path(idx).skip(pre.len() as int) =~= decimal(idx));
    lemma_decimal_value(idx);
    if is_canonical_decimal(digits) && digits_value(digits) == idx {
        lemma_decimal_unique(digits, idx);
    }
}

/// Consoles with different indices live at different object paths.
pub proof fn lemma_console_paths_distinct(a: nat, b: nat)
    requires
        a != b,
    ensures
        console_path(a) != console_path(b),
{
    if console_path(a) == console_path(b) {
        let pre = console_path_prefix();
        assert(decimal(a) =~= console_path(a).subrange(pre.len() as int, console_path(a).len() as int));
        assert(decimal(b) =~= console_path(b).subrange(pre.len() as int, console_path(b).len() as int));
        lemma_decimal_injective(a, b);
    }
}

/// The object path of console `idx`, checked against the D-Bus object path
/// grammar before it is handed to the bus.
pub fn console_object_path(idx: u32) -> (r: Result<String, ConsolePathError>)
    ensures
        r matches Ok(path) && path@ == console_path(idx as nat),
        r matches Ok(path) && path@.subrange(0, 27) == "/org/qemu/Display1/Console_"@
            && is_canonical_decimal(path@.skip(27)) && digits_value(path@.skip(27)) == idx,
{
    let mut path = String::from_str("/org/qemu/Display1/Console_");
    push_decimal(&mut path, idx);
    let accepted = match object_path_from_str(path.as_str()) {
        Ok(_) => true,
        Err(_) => false,
    };
    proof {
        lemma_console_path_valid(idx as nat);
        reveal_strlit("/org/qemu/Display1/Console_");
        lemma_console_path_denotes_index(idx as nat, decimal(idx as nat));
    }
    if accepted {
        Ok(path)
    } else {
        Err(ConsolePathError::InvalidObjectPath)
    }
}

/// What the display listener does after one round of its serving loop.
#[derive(Debug)]
pub enum ListenerStep {
    /// Serve the next message.
    Continue,
    /// Stop serving, after reporting this line.
    Stop(String),
}

/// One round of the listener's loop: a D-Bus error in handling the last
/// message stops it, else an error reported on the event channel stops it,
/// else it goes on.
pub fn listener_step(dbus_error: Option<String>, channel_error: Option<String>) -> (r: ListenerStep)
    ensures
        match dbus_error {
            Some(e) => r matches ListenerStep::Stop(line) && line@ == "Listener DBus error: "@ + e@,
            None => match channel_error {
                Some(e) => r matches ListenerStep::Stop(line) && line@ == "Listener channel error: "@
                    + e@,
                None => r is Continue,
            },
        },
{
    match dbus_error {
        Some(e) => {
            let mut line = String::from_str("Listener DBus error: ");
            line.append(e.as_str());
            ListenerStep::Stop(line)
        },
        None => match channel_error {
            Some(e) => {
                let mut line = String::from_str("Listener channel error: ");
                line.append(e.as_str());
                ListenerStep::Stop(line)
            },
            None => ListenerStep::Continue,
        },
    }
}

} // verus!
