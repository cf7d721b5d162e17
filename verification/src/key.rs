//! Hotkeys parsed from accelerator text, each remembering the text it came
//! from. A `ParsedKey` is only made here, by parsing, so the text it
//! records is the text that was parsed.
use global_hotkey::hotkey::HotKey;
use vstd::prelude::*;

verus! {

#[verifier::external_type_specification]
#[verifier::external_body]
pub struct ExHotKey(HotKey);

/// The outcome of parsing `text` as an accelerator with global-hotkey's
/// `HotKey::from_str`: `None` where it parses, otherwise the text of the
/// error it reports.
pub uninterp spec fn hotkey_parse_failure(text: Seq<char>) -> Option<Seq<char>>;

/// A hotkey together with the accelerator text it was parsed from.
pub struct ParsedKey {
    hotkey: HotKey,
    source: Ghost<Seq<char>>,
}

impl ParsedKey {
    /// The accelerator text this hotkey was parsed from.
    pub closed spec fn source(self) -> Seq<char> {
        self.source@
    }

    /// The parsed hotkey.
    pub closed spec fn hotkey_value(self) -> HotKey {
        self.hotkey
    }

    /// The hotkey, to register.
    pub fn hotkey(&self) -> (h: HotKey)
        ensures
            h == self.hotkey_value(),
    {
        self.hotkey
    }
}

/// Parses an accelerator with global-hotkey's `HotKey::from_str`, whose
/// rules (modifiers first, one main key, known key names) take pages.
/// Trusted: the call succeeds exactly where `hotkey_parse_failure` is
/// `None`, the hotkey it yields is recorded with the text it was parsed
/// from, and an error is returned as its displayed text. Which hotkey a
/// successful parse yields is not described beyond that: the modifiers
/// that some names stand for differ between platforms.
#[verifier::external_body]
pub(crate) fn parse_hotkey(text: &str) -> (r: Result<ParsedKey, String>)
    ensures
        match r {
            Ok(p) => hotkey_parse_failure(text@) is None && p.source() == text@,
            Err(e) => hotkey_parse_failure(text@) == Some(e@),
        },
{
    match text.parse::<HotKey>() {
        Ok(hotkey) => Ok(ParsedKey { hotkey, source: Ghost(text@) }),
        Err(e) => Err(e.to_string()),
    }
}

} // verus!
