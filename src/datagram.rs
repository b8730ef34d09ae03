use vstd::prelude::*;
use vstd::utf8::encode_utf8;

use crate::dispatch::OutboundEvent;

verus! {

/// The decimal digits of `n`, most significant first, without leading zeros.
pub open spec fn decimal(n: nat) -> Seq<char>
    decreases n,
{
    if n < 10 {
        seq![seq!['0', '1', '2', '3', '4', '5', '6', '7', '8', '9'][n as int]]
    } else {
        decimal(n / 10) + seq![seq!['0', '1', '2', '3', '4', '5', '6', '7', '8', '9'][(n % 10) as int]]
    }
}

/// Number of bytes in the UTF-8 encoding of `s`.
pub open spec fn utf8_len(s: Seq<char>) -> nat {
    encode_utf8(s).len()
}

/// The DogStatsD event datagram for a title and a text:
/// `_e{<title bytes>,<text bytes>}:<title>|<text>`.
pub open spec fn datagram_of(title: Seq<char>, text: Seq<char>) -> Seq<char> {
    seq!['_', 'e', '{'] + decimal(utf8_len(title)) + seq![','] + decimal(utf8_len(text))
        + seq!['}', ':'] + title + seq!['|'] + text
}

/// Relies on zoomies' `Event` builder (`new`, `title`, `text`, and `build`,
/// which always returns `Ok` with the title and text set) and on its
/// `DatagramFormat::format` for `Event`, which writes `_e{`, the byte lengths
/// of title and text in decimal separated by `,`, then `}:`, the title, `|`
/// and the text.
#[verifier::external_body]
fn format_event(title: &str, text: &str) -> (r: Result<String, &'static str>)
    ensures
        r is Ok,
        r matches Ok(s) ==> s@ == datagram_of(title@, text@),
{
    match zoomies::Event::new().title(title).text(text).build() {
        Ok(e) => Ok(zoomies::DatagramFormat::format(&e)),
        Err(m) => Err(m),
    }
}

/// The datagram that carries `ev` to the ingestion service.
pub fn event_datagram(ev: &OutboundEvent) -> (r: String)
    ensures
        r@ == datagram_of(ev.title@, ev.text@),
{
    match format_event(ev.title.as_str(), ev.text.as_str()) {
        Ok(s) => s,
        Err(_) => vstd::pervasive::unreached(),
    }
}

} // verus!
