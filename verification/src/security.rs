//! Input sanitization: what is taken out of text that comes from the program
//! or from the clipboard before it is used.
use crate::text::{
    chars_of, is_control, is_control_char, lossy_text, lower_text, starts_with,
    string_from_chars, to_lowercase, utf8_lossy,
};
use vstd::prelude::*;

verus! {

/// The longest text that [`sanitize_osc`] returns, in characters.
pub open spec fn osc_cap() -> int {
    4096
}

/// Whether a character stays in an OSC text: all but the controls, and the
/// tab.
pub open spec fn osc_keeps(c: char) -> bool {
    !is_control_char(c) || c == '\t'
}

/// Whether a character stays in pasted text: all but the controls, and line
/// feed, carriage return and tab.
pub open spec fn paste_keeps(c: char) -> bool {
    !is_control_char(c) || c == '\n' || c == '\r' || c == '\t'
}

/// The text of an OSC payload made safe: its characters without the
/// controls, cut at [`osc_cap`] characters.
pub open spec fn sanitized_osc(text: Seq<char>) -> Seq<char> {
    let kept = text.filter(|c: char| osc_keeps(c));
    if kept.len() > osc_cap() {
        kept.take(osc_cap())
    } else {
        kept
    }
}

/// Sanitize OSC data to prevent injection attacks.
pub fn sanitize_osc(data: &[u8]) -> (s: String)
    ensures
        s@ == sanitized_osc(lossy_text(data@)),
{
    let text = utf8_lossy(data);
    sanitize_osc_text(text.as_str())
}

/// Makes the text of an OSC payload safe.
pub fn sanitize_osc_text(text: &str) -> (s: String)
    ensures
        s@ == sanitized_osc(text@),
{
    let chars = chars_of(text);
    let mut kept: Vec<char> = Vec::new();
    let mut i: usize = 0;
    assert(chars@.take(0) =~= Seq::<char>::empty());
    while i < chars.len()
        invariant
            i <= chars.len(),
            kept@ == chars@.take(i as int).filter(|c: char| osc_keeps(c)),
        decreases chars.len() - i,
    {
        let c = chars[i];
        assert(chars@.take(i + 1).drop_last() =~= chars@.take(i as int));
        proof {
            reveal(Seq::filter);
        }
        if !is_control(c) || c == '\t' {
            kept.push(c);
        }
        i += 1;
    }
    assert(chars@.take(chars.len() as int) =~= chars@);
    if kept.len() > 4096 {
        kept.truncate(4096);
        assert(kept@ =~= chars@.filter(|c: char| osc_keeps(c)).take(4096));
    }
    string_from_chars(&kept)
}

/// Sanitize paste input: strip dangerous control sequences.
pub fn sanitize_paste(input: &str) -> (s: String)
    ensures
        s@ == input@.filter(|c: char| paste_keeps(c)),
{
    let chars = chars_of(input);
    let mut kept: Vec<char> = Vec::new();
    let mut i: usize = 0;
    assert(chars@.take(0) =~= Seq::<char>::empty());
    while i < chars.len()
        invariant
            i <= chars.len(),
            kept@ == chars@.take(i as int).filter(|c: char| paste_keeps(c)),
        decreases chars.len() - i,
    {
        let c = chars[i];
        assert(chars@.take(i + 1).drop_last() =~= chars@.take(i as int));
        proof {
            reveal(Seq::filter);
        }
        if !is_control(c) || c == '\n' || c == '\r' || c == '\t' {
            kept.push(c);
        }
        i += 1;
    }
    assert(chars@.take(chars.len() as int) =~= chars@);
    string_from_chars(&kept)
}

/// Whether a text begins with `https://` or `http://`.
pub open spec fn has_web_scheme(text: Seq<char>) -> bool {
    seq!['h', 't', 't', 'p', 's', ':', '/', '/'].is_prefix_of(text) || seq![
        'h',
        't',
        't',
        'p',
        ':',
        '/',
        '/',
    ].is_prefix_of(text)
}

/// Whether a URL in lower case names the web.
pub fn is_web_url(lower: &str) -> (b: bool)
    ensures
        b == has_web_scheme(lower@),
{
    proof {
        reveal_strlit("https://");
        reveal_strlit("http://");
        assert("https://"@ =~= seq!['h', 't', 't', 'p', 's', ':', '/', '/']);
        assert("http://"@ =~= seq!['h', 't', 't', 'p', ':', '/', '/']);
    }
    starts_with(lower, "https://") || starts_with(lower, "http://")
}

/// Check if a URL is safe to open (no javascript:, data:, etc).
pub fn is_safe_url(url: &str) -> (b: bool)
    ensures
        b == has_web_scheme(lower_text(url@)),
{
    let lower = to_lowercase(url);
    is_web_url(lower.as_str())
}

} // verus!
