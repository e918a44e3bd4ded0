//! The account-validation mail: its recipient, subject and the link that
//! carries the validation token.

use vstd::prelude::*;
use vstd::utf8::encode_utf8;

verus! {

/// Subject line of the account-validation mail.
pub const VALIDATION_SUBJECT: &'static str = "Validate Gablet Account";

/// Whether a byte is left as it is in a query component.
pub open spec fn unreserved(b: u8) -> bool {
    (0x30 <= b <= 0x39) || (0x41 <= b <= 0x5a) || (0x61 <= b <= 0x7a) || b == 0x2d || b == 0x2e
        || b == 0x5f || b == 0x7e
}

/// The uppercase hexadecimal digit of a value below 16.
pub open spec fn hex_digit(n: u8) -> char {
    if n < 10 {
        (0x30 + n) as char
    } else {
        (0x41 + n - 10) as char
    }
}

/// Percent-encoding of a byte string: unreserved bytes stay, every other byte
/// becomes `%` and two uppercase hexadecimal digits.
pub open spec fn percent_encoded(bytes: Seq<u8>) -> Seq<char>
    decreases bytes.len(),
{
    if bytes.len() == 0 {
        Seq::empty()
    } else {
        let b = bytes.last();
        percent_encoded(bytes.drop_last()) + if unreserved(b) {
            seq![b as char]
        } else {
            seq!['%', hex_digit(b / 16), hex_digit(b % 16)]
        }
    }
}

/// Relies on `urlencoding::encode`: the UTF-8 bytes of the text, percent-encoded
/// except for `A-Z a-z 0-9 - . _ ~`.
#[verifier::external_body]
fn url_encode(s: &str) -> (r: String)
    ensures
        r@ == percent_encoded(encode_utf8(s@)),
{
    urlencoding::encode(s).into_owned()
}

/// A mail to hand to the outgoing mail server.
#[derive(Clone, Debug)]
pub struct MailMessage {
    pub to: String,
    pub subject: String,
    pub text_body: String,
    pub html_body: String,
}

/// The link that validates `username` with `token`, under the page `base`.
pub open spec fn validation_link(base: Seq<char>, token: Seq<char>, username: Seq<char>) -> Seq<
    char,
> {
    base + "?token="@ + percent_encoded(encode_utf8(token)) + "&username="@ + percent_encoded(
        encode_utf8(username),
    )
}

/// The link, wrapped in an anchor for the HTML body.
pub open spec fn validation_anchor(base: Seq<char>, token: Seq<char>, username: Seq<char>) -> Seq<
    char,
> {
    "<a href=\""@ + validation_link(base, token, username) + "\">Validate Account</a>"@
}

/// Builds the link that validates `username` with `token`.
pub fn validation_link_text(base: &str, token: &str, username: &str) -> (r: String)
    ensures
        r@ == validation_link(base@, token@, username@),
{
    let mut link = base.to_owned();
    link.append("?token=");
    link.append(url_encode(token).as_str());
    link.append("&username=");
    link.append(url_encode(username).as_str());
    link
}

/// The account-validation mail for `username` at `email`.
pub fn validation_mail(base: &str, email: &str, token: &str, username: &str) -> (r: MailMessage)
    ensures
        r.to@ == email@,
        r.subject@ == VALIDATION_SUBJECT@,
        r.text_body@ == validation_link(base@, token@, username@),
        r.html_body@ == validation_anchor(base@, token@, username@),
{
    let link = validation_link_text(base, token, username);
    let mut html = "<a href=\"".to_owned();
    html.append(link.as_str());
    html.append("\">Validate Account</a>");
    MailMessage {
        to: email.to_owned(),
        subject: VALIDATION_SUBJECT.to_owned(),
        text_body: link,
        html_body: html,
    }
}

} // verus!
