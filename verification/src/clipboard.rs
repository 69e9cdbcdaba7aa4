//! Transfers of text between clipboards, only when the user asks for one and never
//! more than a bounded amount.
use crate::error::Error;
use crate::protocol::{Event, MAX_TEXT};
use crate::text;
use vstd::prelude::*;
use vstd::utf8::{encode_utf8, valid_utf8};

verus! {

/// How long a helper may take, in nanoseconds.
pub const HELPER_LIMIT: u128 = 2_000_000_000;

/// The helper that reads or writes the clipboard, with its arguments.
pub open spec fn helper(wayland: bool, write: bool) -> (Seq<char>, Seq<Seq<char>>) {
    if wayland {
        if write {
            ("wl-copy"@, seq!["--type"@, "text/plain;charset=utf-8"@])
        } else {
            ("wl-paste"@, seq!["--no-newline"@, "--type"@, "text"@])
        }
    } else {
        (
            "xclip"@,
            seq![
                "-selection"@,
                "clipboard"@,
                if write {
                    "-in"@
                } else {
                    "-out"@
                },
            ],
        )
    }
}

pub fn command(wayland: bool, write: bool) -> (r: (&'static str, Vec<&'static str>))
    ensures
        r.0@ == helper(wayland, write).0,
        r.1@.len() == helper(wayland, write).1.len(),
        forall|i: int| 0 <= i < r.1@.len() ==> (#[trigger] r.1@[i])@ == helper(wayland, write).1[i],
{
    let mut arguments: Vec<&'static str> = Vec::new();
    if wayland {
        if write {
            arguments.push("--type");
            arguments.push("text/plain;charset=utf-8");
            ("wl-copy", arguments)
        } else {
            arguments.push("--no-newline");
            arguments.push("--type");
            arguments.push("text");
            ("wl-paste", arguments)
        }
    } else {
        arguments.push("-selection");
        arguments.push("clipboard");
        arguments.push(
            if write {
                "-in"
            } else {
                "-out"
            },
        );
        ("xclip", arguments)
    }
}

/// The text that a helper has read.
pub open spec fn readable(bytes: Seq<u8>, succeeded: bool, r: Result<String, Error>) -> bool {
    &&& r is Ok <==> bytes.len() <= MAX_TEXT && succeeded && valid_utf8(bytes)
        && !vstd::utf8::decode_utf8(bytes).contains('\0')
    &&& r matches Ok(text) ==> encode_utf8(text@) == bytes
    &&& r == Err::<String, Error>(Error::ClipboardTooLong) <==> bytes.len() > MAX_TEXT
    &&& r == Err::<String, Error>(Error::ClipboardRead) <==> bytes.len() <= MAX_TEXT && !succeeded
    &&& r == Err::<String, Error>(Error::ClipboardEncoding) <==> bytes.len() <= MAX_TEXT
        && succeeded && !valid_utf8(bytes)
    &&& r == Err::<String, Error>(Error::ClipboardText) <==> bytes.len() <= MAX_TEXT && succeeded
        && valid_utf8(bytes) && vstd::utf8::decode_utf8(bytes).contains('\0')
}

/// What the helper printed, at most one byte more than fits, and whether it
/// succeeded.
pub fn read(bytes: Vec<u8>, succeeded: bool) -> (r: Result<String, Error>)
    ensures
        readable(bytes@, succeeded, r),
{
    if bytes.len() > MAX_TEXT {
        return Err(Error::ClipboardTooLong);
    }
    if !succeeded {
        return Err(Error::ClipboardRead);
    }
    match text::from_utf8(bytes.as_slice()) {
        None => Err(Error::ClipboardEncoding),
        Some(text) => {
            proof {
                vstd::utf8::encode_utf8_decode_utf8(text@);
            }
            match check_write(text) {
                Ok(()) => Ok(text.to_string()),
                Err(e) => Err(e),
            }
        },
    }
}

/// What is checked before a text is handed to the helper.
pub fn check_write(text: &str) -> (r: Result<(), Error>)
    ensures
        r is Ok <==> encode_utf8(text@).len() <= MAX_TEXT && !text@.contains('\0'),
        r matches Err(e) ==> e == Error::ClipboardText,
{
    let event = Event::Clipboard { text: text.to_string() };
    event.validate()
}

/// How the helper that wrote ended.
pub fn written(succeeded: bool) -> (r: Result<(), Error>)
    ensures
        r is Ok <==> succeeded,
        r matches Err(e) ==> e == Error::ClipboardWrite,
{
    if succeeded {
        Ok(())
    } else {
        Err(Error::ClipboardWrite)
    }
}

} // verus!
