//! Email identifiers.
use vstd::prelude::*;

verus! {

/// The hexadecimal digit of a nibble, in lower case.
pub open spec fn hex_digit(nibble: u128) -> char {
    if nibble < 10 {
        ('0' as int + nibble) as char
    } else {
        ('a' as int + nibble - 10) as char
    }
}

/// How many hyphens stand before position `i` of a hyphenated UUID.
pub open spec fn hyphens_before(i: int) -> int {
    if i <= 8 {
        0
    } else if i <= 13 {
        1
    } else if i <= 18 {
        2
    } else if i <= 23 {
        3
    } else {
        4
    }
}

/// The hyphenated lower-case form of a UUID: its 32 hexadecimal digits, the
/// most significant first, in groups of 8, 4, 4, 4 and 12.
pub open spec fn uuid_text(bits: u128) -> Seq<char> {
    Seq::new(
        36,
        |i: int|
            if i == 8 || i == 13 || i == 18 || i == 23 {
                '-'
            } else {
                hex_digit((bits >> ((4 * (31 - (i - hyphens_before(i)))) as u128)) & 0xf)
            },
    )
}

/// The version field of a UUID.
pub open spec fn uuid_version(bits: u128) -> u128 {
    (bits >> 76) & 0xf
}

/// The two variant bits of a UUID.
pub open spec fn uuid_variant(bits: u128) -> u128 {
    (bits >> 62) & 0x3
}

/// What `uuid::Uuid::parse_str` makes of a text: the 128 bits, or the message
/// of its error.
pub uninterp spec fn uuid_parsed(text: Seq<char>) -> Result<u128, Seq<char>>;

/// `uuid::Uuid::to_string` on the UUID of the given bits (`Uuid::from_u128`).
///
/// Claims that the text is the hyphenated lower-case form, and that
/// `Uuid::parse_str` reads that form back as the same bits.
#[verifier::external_body]
pub(crate) fn format_uuid(bits: u128) -> (text: String)
    ensures
        text@ == uuid_text(bits),
        uuid_parsed(text@) == (Ok::<u128, Seq<char>>(bits)),
{
    uuid::Uuid::from_u128(bits).to_string()
}

/// `uuid::Uuid::parse_str`, with the UUID taken as its bits (`Uuid::as_u128`)
/// and the error as its message.
///
/// Claims no more than that the outcome depends on the text alone; which texts
/// are accepted is left to that function.
#[verifier::external_body]
fn parse_uuid(text: &str) -> (parsed: Result<u128, String>)
    ensures
        match parsed {
            Ok(bits) => uuid_parsed(text@) == (Ok::<u128, Seq<char>>(bits)),
            Err(message) => uuid_parsed(text@) == (Err::<u128, Seq<char>>(message@)),
        },
{
    uuid::Uuid::parse_str(text).map(|uuid| uuid.as_u128()).map_err(|error| error.to_string())
}

/// `uuid::Uuid::now_v7`, which reads the system clock.
///
/// Claims that the bits carry version 7 and the RFC variant; the rest is time
/// and chance. On a target without a system clock the outside function panics,
/// so callers ask for it only where there is one.
#[verifier::external_body]
fn now_v7() -> (bits: u128)
    ensures
        uuid_version(bits) == 7,
        uuid_variant(bits) == 2,
{
    uuid::Uuid::now_v7().as_u128()
}

/// `uuid::Uuid::new_v4`.
///
/// Claims that the bits carry version 4 and the RFC variant; the rest is chance.
#[verifier::external_body]
pub(crate) fn new_v4() -> (bits: u128)
    ensures
        uuid_version(bits) == 4,
        uuid_variant(bits) == 2,
{
    uuid::Uuid::new_v4().as_u128()
}

/// The identifier of an email: the 128 bits of a UUID.
#[derive(Clone, Copy, Debug, PartialEq, Eq, PartialOrd, Ord, Hash, Structural)]
pub struct EmailId {
    pub bits: u128,
}

impl View for EmailId {
    type V = u128;

    open spec fn view(&self) -> u128 {
        self.bits
    }
}

impl From<u128> for EmailId {
    fn from(bits: u128) -> (id: EmailId) {
        EmailId { bits }
    }
}

impl vstd::std_specs::convert::FromSpecImpl<u128> for EmailId {
    open spec fn obeys_from_spec() -> bool {
        true
    }

    open spec fn from_spec(bits: u128) -> EmailId {
        EmailId { bits }
    }
}

/// A parsed identifier by its bits, or the message of the parser.
pub open spec fn parsed_bits(parsed: Result<EmailId, String>) -> Result<u128, Seq<char>> {
    match parsed {
        Ok(id) => Ok(id@),
        Err(message) => Err(message@),
    }
}

impl EmailId {
    /// The text the identifier is stored and shown as.
    pub open spec fn text(self) -> Seq<char> {
        uuid_text(self@)
    }

    /// A fresh identifier: ordered by time where there is a system clock, and
    /// wholly random where there is none.
    pub fn generate(has_clock: bool) -> (id: EmailId)
        ensures
            uuid_version(id@) == (if has_clock {
                7u128
            } else {
                4u128
            }),
            uuid_variant(id@) == 2,
    {
        if has_clock {
            EmailId { bits: now_v7() }
        } else {
            EmailId { bits: new_v4() }
        }
    }

    /// The bits of the identifier.
    pub fn as_uuid(&self) -> (bits: u128)
        ensures
            bits == self@,
            bits == self.bits,
    {
        self.bits
    }

    /// The hyphenated lower-case text of the identifier.
    pub fn to_text(&self) -> (text: String)
        ensures
            text@ == self.text(),
            uuid_parsed(text@) == (Ok::<u128, Seq<char>>(self@)),
            text@ == uuid_text(self.bits),
            uuid_parsed(text@) == (Ok::<u128, Seq<char>>(self.bits)),
    {
        format_uuid(self.bits)
    }

    /// Reads an identifier from its text.
    pub fn parse(text: &str) -> (parsed: Result<EmailId, String>)
        ensures
            parsed_bits(parsed) == uuid_parsed(text@),
            match parsed {
                Ok(id) => uuid_parsed(text@) == (Ok::<u128, Seq<char>>(id.bits)),
                Err(message) => uuid_parsed(text@) == (Err::<u128, Seq<char>>(message@)),
            },
    {
        match parse_uuid(text) {
            Ok(bits) => Ok(EmailId { bits }),
            Err(message) => Err(message),
        }
    }
}

/// Equal digits at a place of two texts stand for equal nibbles.
proof fn lemma_digit_is_nibble(left: u128, right: u128, place: int)
    requires
        uuid_text(left) == uuid_text(right),
        0 <= place < 36,
        place != 8 && place != 13 && place != 18 && place != 23,
    ensures
        (left >> ((4 * (31 - (place - hyphens_before(place)))) as u128)) & 0xf == (right >> ((4 * (
        31 - (place - hyphens_before(place)))) as u128)) & 0xf,
{
    let shift = (4 * (31 - (place - hyphens_before(place)))) as u128;
    let left_nibble = (left >> shift) & 0xf;
    let right_nibble = (right >> shift) & 0xf;
    assert((left >> shift) & 0xf < 16) by (bit_vector);
    assert((right >> shift) & 0xf < 16) by (bit_vector);
    assert(uuid_text(left)[place] == hex_digit(left_nibble));
    assert(uuid_text(right)[place] == hex_digit(right_nibble));
}

/// Different identifiers have different texts, so a text stands for one email.
pub proof fn law_distinct_ids_have_distinct_texts(one: EmailId, two: EmailId)
    requires
        one.text() == two.text(),
    ensures
        one == two,
{
    let (left, right) = (one.bits, two.bits);
    assert forall|place: int|
        0 <= place < 36 && place != 8 && place != 13 && place != 18 && place != 23 implies (left
        >> ((4 * (31 - (place - #[trigger] hyphens_before(place)))) as u128)) & 0xf == (right >> ((
    4 * (31 - (place - hyphens_before(place)))) as u128)) & 0xf by {
        lemma_digit_is_nibble(left, right, place);
    }
    assert(hyphens_before(0) == 0);
    assert(hyphens_before(1) == 0);
    assert(hyphens_before(2) == 0);
    assert(hyphens_before(3) == 0);
    assert(hyphens_before(4) == 0);
    assert(hyphens_before(5) == 0);
    assert(hyphens_before(6) == 0);
    assert(hyphens_before(7) == 0);
    assert(hyphens_before(9) == 1);
    assert(hyphens_before(10) == 1);
    assert(hyphens_before(11) == 1);
    assert(hyphens_before(12) == 1);
    assert(hyphens_before(14) == 2);
    assert(hyphens_before(15) == 2);
    assert(hyphens_before(16) == 2);
    assert(hyphens_before(17) == 2);
    assert(hyphens_before(19) == 3);
    assert(hyphens_before(20) == 3);
    assert(hyphens_before(21) == 3);
    assert(hyphens_before(22) == 3);
    assert(hyphens_before(24) == 4);
    assert(hyphens_before(25) == 4);
    assert(hyphens_before(26) == 4);
    assert(hyphens_before(27) == 4);
    assert(hyphens_before(28) == 4);
    assert(hyphens_before(29) == 4);
    assert(hyphens_before(30) == 4);
    assert(hyphens_before(31) == 4);
    assert(hyphens_before(32) == 4);
    assert(hyphens_before(33) == 4);
    assert(hyphens_before(34) == 4);
    assert(hyphens_before(35) == 4);
    assert(left == right) by (bit_vector)
        requires
            (left >> 0) & 0xf == (right >> 0) & 0xf,
            (left >> 4) & 0xf == (right >> 4) & 0xf,
            (left >> 8) & 0xf == (right >> 8) & 0xf,
            (left >> 12) & 0xf == (right >> 12) & 0xf,
            (left >> 16) & 0xf == (right >> 16) & 0xf,
            (left >> 20) & 0xf == (right >> 20) & 0xf,
            (left >> 24) & 0xf == (right >> 24) & 0xf,
            (left >> 28) & 0xf == (right >> 28) & 0xf,
            (left >> 32) & 0xf == (right >> 32) & 0xf,
            (left >> 36) & 0xf == (right >> 36) & 0xf,
            (left >> 40) & 0xf == (right >> 40) & 0xf,
            (left >> 44) & 0xf == (right >> 44) & 0xf,
            (left >> 48) & 0xf == (right >> 48) & 0xf,
            (left >> 52) & 0xf == (right >> 52) & 0xf,
            (left >> 56) & 0xf == (right >> 56) & 0xf,
            (left >> 60) & 0xf == (right >> 60) & 0xf,
            (left >> 64) & 0xf == (right >> 64) & 0xf,
            (left >> 68) & 0xf == (right >> 68) & 0xf,
            (left >> 72) & 0xf == (right >> 72) & 0xf,
            (left >> 76) & 0xf == (right >> 76) & 0xf,
            (left >> 80) & 0xf == (right >> 80) & 0xf,
            (left >> 84) & 0xf == (right >> 84) & 0xf,
            (left >> 88) & 0xf == (right >> 88) & 0xf,
            (left >> 92) & 0xf == (right >> 92) & 0xf,
            (left >> 96) & 0xf == (right >> 96) & 0xf,
            (left >> 100) & 0xf == (right >> 100) & 0xf,
            (left >> 104) & 0xf == (right >> 104) & 0xf,
            (left >> 108) & 0xf == (right >> 108) & 0xf,
            (left >> 112) & 0xf == (right >> 112) & 0xf,
            (left >> 116) & 0xf == (right >> 116) & 0xf,
            (left >> 120) & 0xf == (right >> 120) & 0xf,
            (left >> 124) & 0xf == (right >> 124) & 0xf,
    ;
}

/// An identifier is its bits, however it is made, read or written.
pub proof fn law_identifier_is_its_bits(bits: u128, message: String)
    ensures
        (EmailId { bits })@ == bits,
        (EmailId { bits }).text() == uuid_text(bits),
        <EmailId as vstd::std_specs::convert::FromSpec<u128>>::from_spec(bits) == (EmailId {
            bits,
        }),
        parsed_bits(Ok(EmailId { bits })) == (Ok::<u128, Seq<char>>(bits)),
        parsed_bits(Err(message)) == (Err::<u128, Seq<char>>(message@)),
{
}

} // verus!
