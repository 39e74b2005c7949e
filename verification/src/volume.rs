//! The volume fragment: decodes and parses the two outputs of the external
//! mixer tool, selects the volume icon, and renders `"<volume>% <icon>"`.

use vstd::prelude::*;
use vstd::string::StringExecFns;
use vstd::utf8::{decode_utf8, valid_utf8};
use crate::errors::StatusError;
use crate::text::{is_literal_true, parse_u8, parse_u8_spec, trim, trim_spec};

verus! {

/// What one invocation of the external mixer tool produced: whether it
/// exited successfully, and the bytes it printed to standard output.
pub struct CommandOutput {
    pub success: bool,
    pub stdout: Vec<u8>,
}

/// The volume icon, in priority order: the mute icon whenever muted,
/// regardless of the level; else the high icon above 50, the low icon above
/// 0, and the zero icon at exactly 0.
pub open spec fn volume_icon_spec(muted: bool, volume: u8) -> Seq<char> {
    if muted {
        "\u{eee8}"@
    } else if volume > 50 {
        "\u{f028}"@
    } else if volume > 0 {
        "\u{f027}"@
    } else {
        "\u{f026}"@
    }
}

/// Mute priority and volume banding: muted picks the mute icon whatever the
/// level; otherwise the bands are split strictly above 50 and strictly
/// above 0, and the four icons are pairwise distinct.
pub proof fn lemma_volume_icon_bands()
    ensures
        forall|v: u8| #[trigger] volume_icon_spec(true, v) == "\u{eee8}"@,
        forall|v: u8| v > 50 ==> #[trigger] volume_icon_spec(false, v) == "\u{f028}"@,
        forall|v: u8| 0 < v <= 50 ==> #[trigger] volume_icon_spec(false, v) == "\u{f027}"@,
        volume_icon_spec(false, 0) == "\u{f026}"@,
        "\u{eee8}"@ != "\u{f028}"@ && "\u{eee8}"@ != "\u{f027}"@ && "\u{eee8}"@ != "\u{f026}"@,
        "\u{f028}"@ != "\u{f027}"@ && "\u{f028}"@ != "\u{f026}"@ && "\u{f027}"@ != "\u{f026}"@,
{
    reveal_strlit("\u{eee8}");
    reveal_strlit("\u{f028}");
    reveal_strlit("\u{f027}");
    reveal_strlit("\u{f026}");
    assert("\u{eee8}"@[0] == '\u{eee8}');
    assert("\u{f028}"@[0] == '\u{f028}');
    assert("\u{f027}"@[0] == '\u{f027}');
    assert("\u{f026}"@[0] == '\u{f026}');
}

/// Selects the volume icon as `volume_icon_spec` describes.
pub fn volume_icon(muted: bool, volume: u8) -> (r: &'static str)
    ensures
        r@ == volume_icon_spec(muted, volume),
{
    if muted {
        "\u{eee8}"
    } else if volume > 50 {
        "\u{f028}"
    } else if volume > 0 {
        "\u{f027}"
    } else {
        "\u{f026}"
    }
}

/// What the volume reader returns for the two command outputs, in the order
/// the checks run: the volume invocation's exit status, then its bytes as
/// text, then the parse of the trimmed volume text, then the mute
/// invocation's exit status and bytes. The fragment keeps the raw trimmed
/// volume text; the trimmed mute text is compared literally with `"true"`.
pub open spec fn get_volume_spec(
    vol_success: bool,
    vol_bytes: Seq<u8>,
    mute_success: bool,
    mute_bytes: Seq<u8>,
) -> Result<Seq<char>, StatusError> {
    if !vol_success {
        Err(StatusError::CommandFailed)
    } else if !valid_utf8(vol_bytes) {
        Err(StatusError::OutputNotUtf8)
    } else {
        let vol_text = trim_spec(decode_utf8(vol_bytes));
        match parse_u8_spec(vol_text) {
            None => Err(StatusError::VolumeParseError),
            Some(v) => {
                if !mute_success {
                    Err(StatusError::CommandFailed)
                } else if !valid_utf8(mute_bytes) {
                    Err(StatusError::OutputNotUtf8)
                } else {
                    let muted = trim_spec(decode_utf8(mute_bytes)) == "true"@;
                    Ok(vol_text + "% "@ + volume_icon_spec(muted, v))
                }
            },
        }
    }
}

/// Relies on String::from_utf8: it returns Ok exactly when the bytes are
/// valid UTF-8, and the returned string is their decoding.
#[verifier::external_body]
fn utf8_to_string(bytes: Vec<u8>) -> (r: Option<String>)
    ensures
        r is Some <==> valid_utf8(bytes@),
        r matches Some(s) ==> s@ == decode_utf8(bytes@),
{
    String::from_utf8(bytes).ok()
}

/// The volume reader on the two outputs of the mixer tool, as
/// `get_volume_spec` describes: the raw trimmed volume text with the icon,
/// or the first error in check order.
pub fn get_volume(vol: CommandOutput, mute: CommandOutput) -> (r: Result<String, StatusError>)
    ensures
        ({
            let s = get_volume_spec(vol.success, vol.stdout@, mute.success, mute.stdout@);
            &&& (r is Ok <==> s is Ok)
            &&& (r matches Ok(f) ==> s matches Ok(v) && f@ == v)
            &&& (r matches Err(e) ==> s matches Err(e2) && e == e2)
        }),
{
    if !vol.success {
        return Err(StatusError::CommandFailed);
    }
    let vol_string = match utf8_to_string(vol.stdout) {
        None => {
            return Err(StatusError::OutputNotUtf8);
        },
        Some(s) => s,
    };
    let vol_text = trim(vol_string.as_str());
    let v = match parse_u8(vol_text) {
        None => {
            return Err(StatusError::VolumeParseError);
        },
        Some(v) => v,
    };
    let mut out = String::from_str(vol_text);
    if !mute.success {
        return Err(StatusError::CommandFailed);
    }
    let mute_string = match utf8_to_string(mute.stdout) {
        None => {
            return Err(StatusError::OutputNotUtf8);
        },
        Some(s) => s,
    };
    let muted = is_literal_true(trim(mute_string.as_str()));
    out.append("% ");
    out.append(volume_icon(muted, v));
    Ok(out)
}

} // verus!
