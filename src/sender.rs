use vstd::prelude::*;
use mail_parser::MessageParser;

verus! {

/// What the header parser reads from `raw` as the sender field: `None` where
/// the headers do not parse, `Some(None)` where they have no `From` field, and
/// otherwise the display name of each address of that field, in order, with
/// `None` for an address that has none.
pub uninterp spec fn sender_names_of(raw: Seq<u8>) -> Option<Option<Seq<Option<Seq<char>>>>>;

/// The views of a list of display names.
pub open spec fn names_view(v: Seq<Option<String>>) -> Seq<Option<Seq<char>>> {
    v.map_values(
        |o: Option<String>|
            match o {
                Some(s) => Some(s@),
                None => None,
            },
    )
}

/// The view of what `parse_sender_names` returns.
pub open spec fn sender_view(r: Option<Option<Vec<Option<String>>>>) -> Option<
    Option<Seq<Option<Seq<char>>>>,
> {
    match r {
        None => None,
        Some(None) => Some(None),
        Some(Some(v)) => Some(Some(names_view(v@))),
    }
}

/// Relies on mail_parser's `MessageParser::parse_headers`, `Message::from` and
/// `Address::iter`: the display names of the `From` field of the headers in `raw`.
#[verifier::external_body]
pub(crate) fn parse_sender_names(raw: &[u8]) -> (r: Option<Option<Vec<Option<String>>>>)
    ensures
        sender_view(r) == sender_names_of(raw@),
{
    match MessageParser::new().parse_headers(raw) {
        None => None,
        Some(message) => match message.from() {
            None => Some(None),
            Some(from) => Some(Some(from.iter().map(|a| a.name.as_ref().map(|n| n.to_string())).collect())),
        },
    }
}

} // verus!
