//! The structural events that a tokenizer hands over, as plain values.

use vstd::prelude::*;

verus! {

/// One attribute of an opening tag, as the tokenizer found it.
#[derive(Debug, PartialEq, Eq)]
pub enum Attribute {
    /// A name and the raw bytes of its value, escapes not yet resolved.
    Pair { key: Vec<u8>, value: Vec<u8> },
    /// Bytes where an attribute should stand that do not form one.
    Malformed,
}

/// An opening tag: its name and its attributes in source order.
#[derive(Debug, PartialEq, Eq)]
pub struct Element {
    pub name: Vec<u8>,
    pub attributes: Vec<Attribute>,
}

/// One unit of the tokenizer's output.
#[derive(Debug, PartialEq, Eq)]
pub enum Event {
    /// An opening tag whose closing tag follows later.
    Start(Element),
    /// A self-closing tag.
    Empty(Element),
    /// A closing tag, with its name.
    End(Vec<u8>),
    /// The end of the input.
    Eof,
    /// The tokenizer could not read the bytes as XML.
    SyntaxError,
    /// The byte source failed.
    IoError,
    /// Anything else: text, comments, declarations.
    Other,
}

/// An event together with the byte offset at which the tokenizer stood
/// before it read the event.
#[derive(Debug, PartialEq, Eq)]
pub struct Token {
    pub position: u64,
    pub event: Event,
}

/// The text that the raw attribute value `raw` stands for: its bytes read as
/// UTF-8, with the predefined XML entities and the character references
/// replaced. `None` where the bytes are not UTF-8 or hold an escape that
/// cannot be resolved.
pub uninterp spec fn unescaped(raw: Seq<u8>) -> Option<Seq<char>>;

/// Calls `quick_xml::events::attributes::Attribute::unescape_value` on an
/// attribute whose value is `raw`.
///
/// The contract only gives the outcome a name: the same bytes always yield
/// the same outcome, text or failure, and nothing else is claimed of it.
#[verifier::external_body]
fn unescape_value(raw: &[u8]) -> (r: Option<String>)
    ensures
        match r {
            Some(text) => unescaped(raw@) == Some(text@),
            None => unescaped(raw@) is None,
        },
{
    let attribute = quick_xml::events::attributes::Attribute::from((&b""[..], raw));
    match attribute.unescape_value() {
        Ok(text) => Some(text.into_owned()),
        Err(_) => None,
    }
}

/// Resolves the escapes of a raw attribute value.
pub fn unescape(raw: &[u8]) -> (r: Option<String>)
    ensures
        match r {
            Some(text) => unescaped(raw@) == Some(text@),
            None => unescaped(raw@) is None,
        },
{
    unescape_value(raw)
}

} // verus!
