//! Messages by what they tell.

use crate::laws::writing::law_written_numbers_read_back;
use crate::message::Message;
use crate::text::{decimal, digits_value};
use vstd::prelude::*;

verus! {

/// Whether a text is a beginning, a number and an end.
pub open spec fn tells_number(
    text: Seq<char>,
    front: Seq<char>,
    n: nat,
    back: Seq<char>,
) -> bool {
    exists|digits: Seq<char>| #[trigger]
        digits_value(digits) == Some(n) && digits.len() > 0 && text == front + digits + back
}

/// What was written, yanked or skipped is told in numbers that read back as they
/// were.
pub proof fn law_numbers_are_told(bytes: u64, count: u64, what: String)
    ensures
        tells_number((Message::Wrote { bytes }).text(), "wrote "@, bytes as nat, " bytes"@),
        tells_number(
            (Message::Yanked { count }).text(),
            "yanked "@,
            count as nat,
            if count == 1 { " selection to clipboard"@ } else { " selections to clipboard"@ },
        ),
        tells_number(
            (Message::NoUsableLocations { what, skipped: count }).text(),
            "no usable "@ + what@ + " ("@,
            count as nat,
            " unsupported or invalid locations)"@,
        ),
{
    law_written_numbers_read_back(bytes as nat);
    law_written_numbers_read_back(count as nat);
    let wrote = (Message::Wrote { bytes }).text();
    assert(wrote =~= "wrote "@ + decimal(bytes as nat) + " bytes"@);
    assert(digits_value(decimal(bytes as nat)) == Some(bytes as nat));
    reveal_strlit(" selection");
    reveal_strlit("s");
    reveal_strlit("");
    reveal_strlit(" to clipboard");
    reveal_strlit(" selection to clipboard");
    reveal_strlit(" selections to clipboard");
    let yanked = (Message::Yanked { count }).text();
    if count == 1 {
        assert(" selection to clipboard"@ =~= " selection"@ + ""@ + " to clipboard"@);
        assert(yanked =~= "yanked "@ + decimal(count as nat) + " selection to clipboard"@);
    } else {
        assert(" selections to clipboard"@ =~= " selection"@ + "s"@ + " to clipboard"@);
        assert(yanked =~= "yanked "@ + decimal(count as nat) + " selections to clipboard"@);
    }
    let skipped = (Message::NoUsableLocations { what, skipped: count }).text();
    assert(skipped =~= ("no usable "@ + what@ + " ("@) + decimal(count as nat)
        + " unsupported or invalid locations)"@);
    assert(digits_value(decimal(count as nat)) == Some(count as nat));
}

/// What concerns a file names it last, after what became of it: it was read again,
/// it changed, it is gone or it cannot be read.
pub proof fn law_files_are_told_by_name(path: String, reason: String)
    ensures
        (Message::Reloaded { path }).text() == "reloaded "@ + path@,
        (Message::DiskChanged { path }).text()
            == "disk changed; unsaved edits kept (:reload! to reload, :w! to overwrite): "@ + path@,
        (Message::DiskRemoved { path }).text()
            == "file removed on disk; buffer kept (:w! to recreate): "@ + path@,
        (Message::ReloadFailed { reason, path }).text() == "cannot reload: "@ + reason@ + " ("@
            + path@ + ")"@,
{
}

/// Servers, languages and what was looked for are told by name, a language with
/// whether it was detected.
pub proof fn law_names_are_told(name: String, title: String, automatic: bool)
    ensures
        (Message::WaitingFor { server: name }).text() == "waiting for "@ + name@ + "..."@,
        (Message::NoLocations { what: name }).text() == "no "@ + name@ + " found"@,
        (Message::Language { name, automatic }).text() == if automatic {
            "language: "@ + name@ + " (auto)"@
        } else {
            "language: "@ + name@
        },
        (Message::GitRunning { title }).text() == title@ + " running…"@,
        (Message::Text { text: name }).text() == name@,
{
    reveal_strlit("");
    assert("language: "@ + name@ + ""@ =~= "language: "@ + name@);
}

/// Settings are told as they are.
pub proof fn law_settings_are_told(enabled: bool, characters: u64, milliseconds: u64)
    ensures
        (if enabled { Message::MouseOn } else { Message::MouseOff }).text() == if enabled {
            "mouse on"@
        } else {
            "mouse off"@
        },
        (Message::Completion { enabled, characters, milliseconds }).text() == if enabled {
            "automatic completion: "@ + "on"@ + ", "@ + decimal(characters as nat)
                + " characters, "@ + decimal(milliseconds as nat) + " ms"@
        } else {
            "automatic completion: "@ + "off"@ + ", "@ + decimal(characters as nat)
                + " characters, "@ + decimal(milliseconds as nat) + " ms"@
        },
{
}

} // verus!
