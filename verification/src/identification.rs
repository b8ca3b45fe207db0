//! Request identifiers: one per request, kept with the request while it is
//! served and written into the response.

use vstd::prelude::*;
use vstd::string::StringExecFns;
use rand::TryRngCore;
use crate::fairing::{Info, Kind};
use crate::http::{
    lemma_lookup_declares, lemma_lookup_push, lemma_lookup_without, lookup, without, Lines,
    Request, Response,
};
use crate::text::{lemma_same_name_equivalence, same_name};

verus! {

/// Whether a character is a decimal digit or one of `a` to `f`.
pub open spec fn is_lower_hex(c: char) -> bool {
    ('0' <= c && c <= '9') || ('a' <= c && c <= 'f')
}

/// Whether a text has the shape of a request identifier: 36 characters,
/// hyphens after the 8th, 12th, 16th and 20th digit, lower-case hexadecimal
/// digits elsewhere.
pub open spec fn is_request_id(text: Seq<char>) -> bool {
    &&& text.len() == 36
    &&& forall|i: int|
        0 <= i < 36 ==> {
            let c = #[trigger] text[i];
            if i == 8 || i == 13 || i == 18 || i == 23 {
                c == '-'
            } else {
                is_lower_hex(c)
            }
        }
}

/// The 128-bit value that `uuid::Uuid::parse_str` reads from a text, where
/// it reads one.
pub uninterp spec fn uuid_value(text: Seq<char>) -> Option<u128>;

/// The lower-case hexadecimal digit of a number from 0 to 15.
pub open spec fn hex_digit(n: int) -> char {
    if n < 10 {
        ('0' as int + n) as char
    } else {
        ('a' as int + n - 10) as char
    }
}

/// Sixteen bytes marked as a random identifier: the upper half of the
/// seventh byte holds the version 4, the upper two bits of the ninth byte
/// hold the variant.
pub open spec fn marked(bytes: Seq<u8>) -> Seq<u8> {
    bytes.update(6, (bytes[6] & 0x0f) | 0x40).update(8, (bytes[8] & 0x3f) | 0x80)
}

/// Which of the 32 digits of an identifier stands at a place of its text
/// that holds no hyphen.
pub open spec fn digit_at(place: int) -> int {
    if place < 8 {
        place
    } else if place < 13 {
        place - 1
    } else if place < 18 {
        place - 2
    } else if place < 23 {
        place - 3
    } else {
        place - 4
    }
}

/// The place in the text of an identifier at which one of its 32 digits
/// stands.
pub open spec fn place_of(digit: int) -> int {
    if digit < 8 {
        digit
    } else if digit < 12 {
        digit + 1
    } else if digit < 16 {
        digit + 2
    } else if digit < 20 {
        digit + 3
    } else {
        digit + 4
    }
}

/// Sixteen bytes as hyphenated text: two lower-case hexadecimal digits for
/// each byte, the upper half first, with hyphens after the 8th, 12th, 16th
/// and 20th digit.
pub open spec fn hyphenated(bytes: Seq<u8>) -> Seq<char> {
    Seq::new(
        36,
        |place: int|
            if place == 8 || place == 13 || place == 18 || place == 23 {
                '-'
            } else {
                let digit = digit_at(place);
                let byte = bytes[digit / 2] as int;
                hex_digit(
                    if digit % 2 == 0 {
                        byte / 16
                    } else {
                        byte % 16
                    },
                )
            },
    )
}

/// The text of the random identifier made of sixteen bytes.
pub open spec fn random_id_text(bytes: Seq<u8>) -> Seq<char> {
    hyphenated(marked(bytes))
}

/// Hyphenated text has the shape of a request identifier.
pub proof fn lemma_hyphenated_shape(bytes: Seq<u8>)
    requires
        bytes.len() == 16,
    ensures
        is_request_id(hyphenated(bytes)),
{
    let text = hyphenated(bytes);
    assert forall|i: int| 0 <= i < 36 implies {
        let c = #[trigger] text[i];
        if i == 8 || i == 13 || i == 18 || i == 23 {
            c == '-'
        } else {
            is_lower_hex(c)
        }
    } by {
        if !(i == 8 || i == 13 || i == 18 || i == 23) {
            let digit = digit_at(i);
            let byte = bytes[digit / 2];
            assert(0 <= byte / 16 < 16 && 0 <= byte % 16 < 16);
        }
    }
}

/// Two sequences of sixteen bytes that differ give different texts: the
/// text shows every bit of the bytes.
pub proof fn lemma_hyphenated_differs(a: Seq<u8>, b: Seq<u8>)
    requires
        a.len() == 16,
        b.len() == 16,
        a != b,
    ensures
        hyphenated(a) != hyphenated(b),
{
    if forall|j: int| 0 <= j < 16 ==> a[j] == b[j] {
        assert(a =~= b);
    }
    let j = choose|j: int| 0 <= j < 16 && a[j] != b[j];
    let upper = place_of(2 * j);
    let lower = place_of(2 * j + 1);
    assert(digit_at(upper) == 2 * j && digit_at(lower) == 2 * j + 1);
    assert(0 <= a[j] / 16 < 16 && 0 <= a[j] % 16 < 16);
    assert(0 <= b[j] / 16 < 16 && 0 <= b[j] % 16 < 16);
    if a[j] / 16 != b[j] / 16 {
        assert(hyphenated(a)[upper] == hex_digit(a[j] as int / 16));
        assert(hyphenated(b)[upper] == hex_digit(b[j] as int / 16));
        assert(hyphenated(a)[upper] != hyphenated(b)[upper]);
    } else {
        assert(a[j] % 16 != b[j] % 16);
        assert(hyphenated(a)[lower] == hex_digit(a[j] as int % 16));
        assert(hyphenated(b)[lower] == hex_digit(b[j] as int % 16));
        assert(hyphenated(a)[lower] != hyphenated(b)[lower]);
    }
}

/// Random identifiers differ wherever the random bytes that they are made
/// of differ in a bit that the version and the variant do not take. So two
/// requests get the same identifier only where the system's randomness
/// gives the same 122 bits twice.
pub proof fn lemma_random_ids_differ(a: Seq<u8>, b: Seq<u8>)
    requires
        a.len() == 16,
        b.len() == 16,
        marked(a) != marked(b),
    ensures
        random_id_text(a) != random_id_text(b),
{
    lemma_hyphenated_differs(marked(a), marked(b));
}

/// A random identifier is never the one of all zeros: its version shows.
pub proof fn lemma_random_id_is_not_nil(bytes: Seq<u8>)
    requires
        bytes.len() == 16,
    ensures
        random_id_text(bytes) != RRIM::nil_id(),
{
    let seventh = bytes[6];
    assert(((seventh & 0x0f) | 0x40) / 16 == 4) by (bit_vector);
    reveal_strlit("00000000-0000-0000-0000-000000000000");
    assert(digit_at(14) == 12);
    assert(random_id_text(bytes)[14] == '4');
    assert(RRIM::nil_id()[14] == '0');
}

/// `rand::rngs::OsRng` through `rand::TryRngCore::try_fill_bytes`: sixteen
/// bytes of the operating system's randomness, or nothing where the system
/// reports that it has none. Nothing is claimed of the bytes.
#[verifier::external_body]
fn os_random() -> Option<[u8; 16]> {
    let mut bytes = [0u8; 16];
    match rand::rngs::OsRng.try_fill_bytes(&mut bytes) {
        Ok(()) => Some(bytes),
        Err(_) => None,
    }
}

/// `uuid::Builder::from_random_bytes`, `uuid::Builder::into_uuid` and the
/// `Display` of `uuid::Uuid`: the random identifier made of the given bytes,
/// as text. The builder sets the version 4 and the variant in the bytes;
/// the text shows each byte as two lower-case hexadecimal digits, with
/// hyphens after the 8th, 12th, 16th and 20th digit.
#[verifier::external_body]
fn random_id(bytes: [u8; 16]) -> (id: String)
    ensures
        id@ == random_id_text(bytes@),
{
    uuid::Builder::from_random_bytes(bytes).into_uuid().to_string()
}

/// `uuid::Uuid::parse_str` and `uuid::Uuid::as_u128`: the value of an
/// identifier given as text. The empty text is no identifier.
#[verifier::external_body]
fn parse_uuid(text: &str) -> (r: Option<u128>)
    ensures
        r == uuid_value(text@),
        text@.len() == 0 ==> r is None,
{
    match uuid::Uuid::parse_str(text) {
        Ok(id) => Some(id.as_u128()),
        Err(_) => None,
    }
}

/// The identifier that a request carries: the one assigned to it, or the
/// empty text where none was assigned.
pub open spec fn current_id(request: &Request) -> Seq<char> {
    match request.request_id {
        Some(id) => id@,
        None => Seq::empty(),
    }
}

/// The header that carries the identifier of a request in its response.
pub open spec fn id_header() -> Seq<char> {
    "X-Request-ID"@
}

/// The stage that assigns an identifier to each request and echoes it in
/// the response.
pub struct RRIM;

impl RRIM {
    /// The name of the stage and its phases.
    pub fn info(&self) -> (r: Info)
        ensures
            r.name@ == "Request ID"@,
            r.kind == (Kind { request: true, response: true }),
    {
        Info { name: "Request ID", kind: Kind::request().or(Kind::response()) }
    }

    /// The identifier that stands for none: all digits zero.
    pub open spec fn nil_id() -> Seq<char> {
        "00000000-0000-0000-0000-000000000000"@
    }

    /// The identifier made of what the system's randomness gave: a random
    /// identifier of the bytes, or the one of all zeros where it gave none.
    pub fn id_from(&self, random: Option<[u8; 16]>) -> (id: String)
        ensures
            id@ == match random {
                Some(bytes) => random_id_text(bytes@),
                None => RRIM::nil_id(),
            },
            is_request_id(id@),
    {
        match random {
            Some(bytes) => {
                proof {
                    lemma_hyphenated_shape(marked(bytes@));
                }
                random_id(bytes)
            },
            None => {
                proof {
                    reveal_strlit("00000000-0000-0000-0000-000000000000");
                }
                String::from_str("00000000-0000-0000-0000-000000000000")
            },
        }
    }

    /// A fresh identifier: a random one, or the one of all zeros where the
    /// system has no randomness to give.
    pub fn fresh(&self) -> (id: String)
        ensures
            is_request_id(id@),
    {
        self.id_from(os_random())
    }

    /// The request once it has been given the identifier `id`: it carries
    /// `id` unless it had an identifier already, and is the same otherwise.
    pub open spec fn assigned(request: Request, id: String) -> Request {
        Request {
            request_id: if request.request_id is Some {
                request.request_id
            } else {
                Some(id)
            },
            ..request
        }
    }

    /// Gives the request the identifier `id`, unless it has one already.
    pub fn assign(&self, request: &mut Request, id: String)
        ensures
            *final(request) == RRIM::assigned(*old(request), id),
    {
        if request.request_id.is_none() {
            request.request_id = Some(id);
        }
    }

    /// The request phase: a request without an identifier gets a fresh one.
    pub fn on_request(&self, request: &mut Request)
        ensures
            final(request).request_id is Some,
            old(request).request_id is Some ==> *final(request) == *old(request),
            old(request).request_id is None ==> is_request_id(current_id(final(request))),
            *final(request) == (Request { request_id: final(request).request_id, ..*old(request) }),
    {
        if request.request_id.is_none() {
            let id = self.fresh();
            self.assign(request, id);
        }
    }

    /// The response phase: the identifier of the request becomes the one
    /// value of the identifier header, and is what a reader of that header
    /// finds.
    pub fn on_response(&self, request: &Request, response: &mut Response)
        ensures
            final(response).status == old(response).status,
            final(response).body == old(response).body,
            final(response).headers@ == without(old(response).headers@, id_header()).push(
                (id_header(), current_id(request)),
            ),
            lookup(final(response).headers@, id_header()) == Some(current_id(request)),
            forall|name: Seq<char>|
                !same_name(id_header(), name) ==> lookup(
                    final(response).headers@,
                    name,
                ) == lookup(old(response).headers@, name),
    {
        match &request.request_id {
            Some(id) => response.set_header("X-Request-ID", id.as_str()),
            None => response.set_header("X-Request-ID", ""),
        }
        proof {
            reveal_strlit("");
            assert(""@ =~= Seq::<char>::empty());
            lemma_echo_is_found(old(response).headers@, current_id(request));
            assert forall|name: Seq<char>|
                !same_name(id_header(), name) implies lookup(
                response.headers@,
                name,
            ) == lookup(old(response).headers@, name) by {
                lemma_lookup_without(old(response).headers@, id_header(), name);
                lemma_lookup_push(
                    without(old(response).headers@, id_header()),
                    (id_header(), current_id(request)),
                    name,
                );
            }
        }
    }
}

/// Once the identifier header is set, looking it up finds the value set,
/// whatever the response held before.
pub proof fn lemma_echo_is_found(before: Lines, id: Seq<char>)
    ensures
        lookup(without(before, id_header()).push((id_header(), id)), id_header()) == Some(id),
{
    let cleared = without(before, id_header());
    lemma_lookup_without(before, id_header(), id_header());
    lemma_lookup_declares(cleared, id_header());
    lemma_lookup_push(cleared, (id_header(), id), id_header());
    lemma_same_name_equivalence(id_header(), id_header(), id_header());
}

/// Each request has an identifier of its own. Of two requests that have
/// none yet and are given different identifiers, each carries the one it
/// was given and the two differ; and a request that has its identifier
/// keeps it, whatever is offered to it later.
pub proof fn lemma_requests_keep_their_ids(
    a: Request,
    b: Request,
    first: String,
    second: String,
    later: String,
)
    requires
        a.request_id is None,
        b.request_id is None,
        first@ != second@,
    ensures
        current_id(&RRIM::assigned(a, first)) == first@,
        current_id(&RRIM::assigned(b, second)) == second@,
        current_id(&RRIM::assigned(a, first)) != current_id(&RRIM::assigned(b, second)),
        RRIM::assigned(RRIM::assigned(a, first), later) == RRIM::assigned(a, first),
{
}

/// The identifier of a request as its handler sees it.
pub struct RIG(pub String);

impl RIG {
    /// The identifier that the request carries.
    pub fn from_request(request: &Request) -> (r: RIG)
        ensures
            r.0@ == current_id(request),
    {
        match &request.request_id {
            Some(id) => RIG(id.clone()),
            None => RIG(String::new()),
        }
    }
}

/// The identifier of a request as a 128-bit value; zero where the request
/// carries none.
#[derive(Clone, Copy, Debug, PartialEq, Eq, Structural)]
pub struct IdGuard {
    pub id: u128,
}

impl IdGuard {
    /// The guard for what was read from the identifier of a request.
    pub fn from_parsed(parsed: Option<u128>) -> (r: IdGuard)
        ensures
            r.id == match parsed {
                Some(value) => value,
                None => 0,
            },
    {
        match parsed {
            Some(value) => IdGuard { id: value },
            None => IdGuard { id: 0 },
        }
    }

    /// The value of the identifier that the request carries, zero where it
    /// carries none or one that is no identifier.
    pub fn from_request(request: &Request) -> (r: IdGuard)
        ensures
            r.id == match uuid_value(current_id(request)) {
                Some(value) => value,
                None => 0,
            },
            request.request_id is None ==> r.id == 0,
    {
        let parsed = match &request.request_id {
            Some(id) => parse_uuid(id.as_str()),
            None => {
                proof {
                    reveal_strlit("");
                    assert(""@ =~= Seq::<char>::empty());
                }
                parse_uuid("")
            },
        };
        IdGuard::from_parsed(parsed)
    }
}

/// The identifier echoed in a response is the one that the handler of the
/// same request saw.
pub proof fn lemma_echo_matches_guard(request: &Request, guard: RIG, before: Lines, after: Lines)
    requires
        guard.0@ == current_id(request),
        after == without(before, id_header()).push((id_header(), current_id(request))),
    ensures
        lookup(after, id_header()) == Some(guard.0@),
{
    lemma_echo_is_found(before, current_id(request));
}

} // verus!
