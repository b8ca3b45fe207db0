//! The plain model of a request and a response that the stages work on.

use vstd::prelude::*;
use crate::text::same_name;

verus! {

/// The method of a request.
#[derive(Clone, Copy, Debug, PartialEq, Eq, Hash, Structural)]
pub enum Method {
    Get,
    Put,
    Post,
    Delete,
    Options,
    Head,
    Trace,
    Connect,
    Patch,
}

impl Method {
    /// The name of the method as it stands in a request.
    pub open spec fn name(self) -> Seq<char> {
        match self {
            Method::Get => "GET"@,
            Method::Put => "PUT"@,
            Method::Post => "POST"@,
            Method::Delete => "DELETE"@,
            Method::Options => "OPTIONS"@,
            Method::Head => "HEAD"@,
            Method::Trace => "TRACE"@,
            Method::Connect => "CONNECT"@,
            Method::Patch => "PATCH"@,
        }
    }

    /// The name of the method as it stands in a request.
    pub fn as_str(self) -> (r: &'static str)
        ensures
            r@ == self.name(),
    {
        match self {
            Method::Get => "GET",
            Method::Put => "PUT",
            Method::Post => "POST",
            Method::Delete => "DELETE",
            Method::Options => "OPTIONS",
            Method::Head => "HEAD",
            Method::Trace => "TRACE",
            Method::Connect => "CONNECT",
            Method::Patch => "PATCH",
        }
    }
}

/// The status of a response, by its numeric code.
#[derive(Clone, Copy, Debug, PartialEq, Eq, Hash, Structural)]
pub struct Status {
    pub code: u16,
}

impl Status {
    /// The status with the given code.
    pub fn new(code: u16) -> (r: Status)
        ensures
            r.code == code,
    {
        Status { code }
    }

    /// 200: the request was served.
    pub fn ok() -> (r: Status)
        ensures
            r.code == 200,
    {
        Status { code: 200 }
    }

    /// 204: the request was served, and there is nothing to send.
    pub fn no_content() -> (r: Status)
        ensures
            r.code == 204,
    {
        Status { code: 204 }
    }

    /// 401: the caller did not show the right to be served.
    pub fn unauthorized() -> (r: Status)
        ensures
            r.code == 401,
    {
        Status { code: 401 }
    }

    /// 403: the caller may not be served.
    pub fn forbidden() -> (r: Status)
        ensures
            r.code == 403,
    {
        Status { code: 403 }
    }

    /// 429: the caller is over its quota.
    pub fn too_many_requests() -> (r: Status)
        ensures
            r.code == 429,
    {
        Status { code: 429 }
    }
}

/// The network address a request came from.
#[derive(Clone, Copy, Debug, PartialEq, Eq, Hash, Structural)]
pub enum ClientAddr {
    /// An IPv4 address, most significant octet first.
    V4(u32),
    /// An IPv6 address, most significant segment first.
    V6(u128),
}

impl ClientAddr {
    /// The IPv4 address `a.b.c.d`.
    pub fn v4(a: u8, b: u8, c: u8, d: u8) -> (r: ClientAddr)
        ensures
            r == ClientAddr::V4((a * 16777216 + b * 65536 + c * 256 + d) as u32),
    {
        let high: u32 = a as u32 * 16777216 + b as u32 * 65536;
        let low: u32 = c as u32 * 256 + d as u32;
        ClientAddr::V4(high + low)
    }

    /// The IPv6 address of the eight segments `a` to `h`.
    pub fn v6(a: u16, b: u16, c: u16, d: u16, e: u16, f: u16, g: u16, h: u16) -> (r: ClientAddr)
        ensures
            r == ClientAddr::V6(
                (a * 0x1_0000_0000_0000_0000_0000_0000_0000 + b * 0x1_0000_0000_0000_0000_0000_0000
                    + c * 0x1_0000_0000_0000_0000_0000 + d * 0x1_0000_0000_0000_0000 + e
                    * 0x1_0000_0000_0000 + f * 0x1_0000_0000 + g * 0x1_0000 + h) as u128,
            ),
    {
        let high: u128 = a as u128 * 0x1_0000_0000_0000_0000_0000_0000_0000 + b as u128
            * 0x1_0000_0000_0000_0000_0000_0000 + c as u128 * 0x1_0000_0000_0000_0000_0000 + d as u128
            * 0x1_0000_0000_0000_0000;
        let low: u128 = e as u128 * 0x1_0000_0000_0000 + f as u128 * 0x1_0000_0000 + g as u128
            * 0x1_0000 + h as u128;
        ClientAddr::V6(high + low)
    }
}

/// One header line: a name and a value.
#[derive(Clone, Debug)]
pub struct Header {
    pub name: String,
    pub value: String,
}

impl View for Header {
    type V = (Seq<char>, Seq<char>);

    open spec fn view(&self) -> (Seq<char>, Seq<char>) {
        (self.name@, self.value@)
    }
}

impl Header {
    /// The line of the given name and value.
    pub fn new(name: &str, value: &str) -> (r: Header)
        ensures
            r@ == (name@, value@),
    {
        Header { name: name.to_owned(), value: value.to_owned() }
    }
}

/// Pairs of name and value in the order in which they were added: the
/// header lines of a message, or the cookies of a request.
pub type Lines = Seq<(Seq<char>, Seq<char>)>;

/// Whether some line carries the given name.
pub open spec fn declares(lines: Lines, name: Seq<char>) -> bool {
    exists|i: int| 0 <= i < lines.len() && same_name(#[trigger] lines[i].0, name)
}

/// The value of the first line that carries the given name.
pub open spec fn lookup(lines: Lines, name: Seq<char>) -> Option<Seq<char>>
    decreases lines.len(),
{
    if lines.len() == 0 {
        None
    } else if same_name(lines[0].0, name) {
        Some(lines[0].1)
    } else {
        lookup(lines.drop_first(), name)
    }
}

/// The lines that do not carry the given name, in their order.
pub open spec fn without(lines: Lines, name: Seq<char>) -> Lines {
    lines.filter(|line: (Seq<char>, Seq<char>)| !same_name(line.0, name))
}

/// The characters of a text that may be absent.
pub open spec fn text_of(value: Option<&str>) -> Option<Seq<char>> {
    match value {
        Some(text) => Some(text@),
        None => None,
    }
}

/// The headers of a request or a response. Names match without regard to
/// ASCII case.
#[derive(Clone, Debug)]
pub struct HeaderMap {
    pub entries: Vec<Header>,
}

impl View for HeaderMap {
    type V = Lines;

    open spec fn view(&self) -> Lines {
        self.entries@.map_values(|h: Header| h@)
    }
}

/// A name is declared exactly when looking it up finds a value.
pub proof fn lemma_lookup_declares(lines: Lines, name: Seq<char>)
    ensures
        lookup(lines, name) is Some <==> declares(lines, name),
    decreases lines.len(),
{
    if lines.len() == 0 {
    } else if same_name(lines[0].0, name) {
    } else {
        let rest = lines.drop_first();
        lemma_lookup_declares(rest, name);
        if declares(rest, name) {
            let i = choose|i: int| 0 <= i < rest.len() && same_name(#[trigger] rest[i].0, name);
            assert(same_name(lines[i + 1].0, name));
        }
        if declares(lines, name) {
            let i = choose|i: int| 0 <= i < lines.len() && same_name(#[trigger] lines[i].0, name);
            assert(same_name(rest[i - 1].0, name));
        }
    }
}

/// Looking a name up skips the leading lines that carry other names.
pub proof fn lemma_lookup_from(lines: Lines, name: Seq<char>, k: int)
    requires
        0 <= k <= lines.len(),
        forall|j: int| 0 <= j < k ==> !same_name(#[trigger] lines[j].0, name),
    ensures
        lookup(lines, name) == lookup(lines.skip(k), name),
    decreases k,
{
    if k == 0 {
        assert(lines.skip(0) =~= lines);
    } else {
        let rest = lines.drop_first();
        assert(!same_name(lines[0].0, name));
        assert forall|j: int| 0 <= j < k - 1 implies !same_name(#[trigger] rest[j].0, name) by {
            assert(!same_name(lines[j + 1].0, name));
        }
        lemma_lookup_from(rest, name, k - 1);
        assert(rest.skip(k - 1) =~= lines.skip(k));
    }
}

/// A line added at the end is found under its name unless an earlier line
/// carries that name; under every other name the result stays the same.
pub proof fn lemma_lookup_push(lines: Lines, line: (Seq<char>, Seq<char>), name: Seq<char>)
    ensures
        lookup(lines.push(line), name) == if lookup(lines, name) is Some {
            lookup(lines, name)
        } else if same_name(line.0, name) {
            Some(line.1)
        } else {
            None
        },
    decreases lines.len(),
{
    let all = lines.push(line);
    if lines.len() == 0 {
        assert(all[0] == line);
        assert(lookup(all.drop_first(), name) is None);
    } else if same_name(lines[0].0, name) {
    } else {
        assert(all.drop_first() =~= lines.drop_first().push(line));
        lemma_lookup_push(lines.drop_first(), line, name);
    }
}

/// After the lines of one name are taken out, that name is no longer
/// declared, and every other name is found as before.
pub proof fn lemma_lookup_without(lines: Lines, gone: Seq<char>, name: Seq<char>)
    ensures
        !declares(without(lines, gone), gone),
        !same_name(gone, name) ==> lookup(without(lines, gone), name) == lookup(lines, name),
    decreases lines.len(),
{
    let keep = |line: (Seq<char>, Seq<char>)| !same_name(line.0, gone);
    let rest = without(lines, gone);
    assert forall|i: int| 0 <= i < rest.len() implies !same_name(#[trigger] rest[i].0, gone) by {
        lines.lemma_filter_pred(keep, i);
    }
    if lines.len() > 0 && !same_name(gone, name) {
        let head = lines[0];
        let tail = lines.drop_first();
        assert(lines =~= seq![head] + tail);
        tail.lemma_filter_prepend(head, keep);
        lemma_lookup_without(tail, gone, name);
        if keep(head) {
            assert((seq![head] + without(tail, gone)).drop_first() =~= without(tail, gone));
        } else {
            assert(Seq::<(Seq<char>, Seq<char>)>::empty() + without(tail, gone) =~= without(
                tail,
                gone,
            ));
        }
    } else if lines.len() == 0 {
        reveal(Seq::filter);
    }
}

impl HeaderMap {
    /// No headers.
    pub fn new() -> (r: HeaderMap)
        ensures
            r@ == Seq::<(Seq<char>, Seq<char>)>::empty(),
    {
        let r = HeaderMap { entries: Vec::new() };
        assert(r@ =~= Seq::<(Seq<char>, Seq<char>)>::empty());
        r
    }

    /// The number of header lines.
    pub fn len(&self) -> (r: usize)
        ensures
            r == self@.len(),
    {
        self.entries.len()
    }

    /// Whether a header of this name is present.
    pub fn contains(&self, name: &str) -> (r: bool)
        ensures
            r == declares(self@, name@),
    {
        let mut i: usize = 0;
        while i < self.entries.len()
            invariant
                i <= self.entries.len(),
                forall|j: int| 0 <= j < i ==> !same_name(#[trigger] self@[j].0, name@),
            decreases self.entries.len() - i,
        {
            if self.entries[i].name.as_str().eq_ignore_ascii_case(name) {
                assert(same_name(self@[i as int].0, name@));
                return true;
            }
            i += 1;
        }
        false
    }

    /// The value of the first header of this name.
    pub fn get_one(&self, name: &str) -> (r: Option<&str>)
        ensures
            text_of(r) == lookup(self@, name@),
    {
        let mut i: usize = 0;
        while i < self.entries.len()
            invariant
                i <= self.entries.len(),
                forall|j: int| 0 <= j < i ==> !same_name(#[trigger] self@[j].0, name@),
            decreases self.entries.len() - i,
        {
            if self.entries[i].name.as_str().eq_ignore_ascii_case(name) {
                proof {
                    lemma_lookup_from(self@, name@, i as int);
                    assert(self@.skip(i as int)[0] == self@[i as int]);
                }
                return Some(self.entries[i].value.as_str());
            }
            i += 1;
        }
        proof {
            lemma_lookup_from(self@, name@, i as int);
        }
        None
    }

    /// Adds a header line after those already present.
    pub fn add(&mut self, name: &str, value: &str)
        ensures
            final(self)@ == old(self)@.push((name@, value@)),
    {
        self.entries.push(Header::new(name, value));
        assert(self@ =~= old(self)@.push((name@, value@)));
    }

    /// Takes out every header line of this name.
    pub fn remove(&mut self, name: &str)
        ensures
            final(self)@ == without(old(self)@, name@),
    {
        let ghost keep = |line: (Seq<char>, Seq<char>)| !same_name(line.0, name@);
        let ghost start = self@;
        let ghost mut seen: int = 0;
        let mut i: usize = 0;
        proof {
            reveal(Seq::filter);
            assert(start.take(0).filter(keep) =~= Seq::<(Seq<char>, Seq<char>)>::empty());
            assert(start.skip(0) =~= start);
        }
        while i < self.entries.len()
            invariant
                0 <= seen <= start.len(),
                keep == |line: (Seq<char>, Seq<char>)| !same_name(line.0, name@),
                i == start.take(seen).filter(keep).len(),
                self@ == start.take(seen).filter(keep) + start.skip(seen),
            decreases start.len() - seen,
        {
            let ghost before = self@;
            let ghost kept = start.take(seen).filter(keep);
            assert(before[i as int] == start[seen]);
            assert(start.take(seen + 1).filter(keep) == if keep(start[seen]) {
                kept.push(start[seen])
            } else {
                kept
            }) by {
                assert(start.take(seen + 1).drop_last() =~= start.take(seen));
                reveal(Seq::filter);
            }
            if self.entries[i].name.as_str().eq_ignore_ascii_case(name) {
                self.entries.remove(i);
                assert(self@ =~= before.remove(i as int));
                assert(before.remove(i as int) =~= kept + start.skip(seen + 1));
            } else {
                i += 1;
                assert(self@ =~= kept.push(start[seen]) + start.skip(seen + 1));
            }
            proof {
                seen = seen + 1;
            }
        }
        proof {
            assert(seen == start.len());
            assert(start.take(seen) =~= start);
            assert(self@ =~= start.filter(keep));
        }
    }

    /// Sets the header of this name to one line with the given value: lines
    /// of that name are taken out, and the new line is added at the end.
    pub fn replace(&mut self, name: &str, value: &str)
        ensures
            final(self)@ == without(old(self)@, name@).push((name@, value@)),
    {
        self.remove(name);
        self.add(name, value);
    }
}

/// One cookie of a request: a name and a value.
#[derive(Clone, Debug)]
pub struct Cookie {
    pub name: String,
    pub value: String,
}

impl View for Cookie {
    type V = (Seq<char>, Seq<char>);

    open spec fn view(&self) -> (Seq<char>, Seq<char>) {
        (self.name@, self.value@)
    }
}

/// The value of the first cookie with exactly the given name.
pub open spec fn cookie_value(cookies: Lines, name: Seq<char>) -> Option<Seq<char>>
    decreases cookies.len(),
{
    if cookies.len() == 0 {
        None
    } else if cookies[0].0 == name {
        Some(cookies[0].1)
    } else {
        cookie_value(cookies.drop_first(), name)
    }
}

/// Looking a cookie up skips the leading cookies of other names.
pub proof fn lemma_cookie_value_from(cookies: Lines, name: Seq<char>, k: int)
    requires
        0 <= k <= cookies.len(),
        forall|j: int| 0 <= j < k ==> (#[trigger] cookies[j]).0 != name,
    ensures
        cookie_value(cookies, name) == cookie_value(cookies.skip(k), name),
    decreases k,
{
    if k == 0 {
        assert(cookies.skip(0) =~= cookies);
    } else {
        let rest = cookies.drop_first();
        assert(cookies[0].0 != name);
        assert forall|j: int| 0 <= j < k - 1 implies (#[trigger] rest[j]).0 != name by {
            assert(cookies[j + 1].0 != name);
        }
        lemma_cookie_value_from(rest, name, k - 1);
        assert(rest.skip(k - 1) =~= cookies.skip(k));
    }
}

/// The cookies of other names, in their order.
pub open spec fn cookies_without(cookies: Lines, name: Seq<char>) -> Lines {
    cookies.filter(|cookie: (Seq<char>, Seq<char>)| cookie.0 != name)
}

/// The cookies of a request, in the order in which they were added. Names
/// match exactly.
#[derive(Clone, Debug)]
pub struct CookieJar {
    pub entries: Vec<Cookie>,
}

impl View for CookieJar {
    type V = Lines;

    open spec fn view(&self) -> Lines {
        self.entries@.map_values(|c: Cookie| c@)
    }
}

impl CookieJar {
    /// No cookies.
    pub fn new() -> (r: CookieJar)
        ensures
            r@ == Seq::<(Seq<char>, Seq<char>)>::empty(),
    {
        let r = CookieJar { entries: Vec::new() };
        assert(r@ =~= Seq::<(Seq<char>, Seq<char>)>::empty());
        r
    }

    /// Adds a cookie after those already present.
    pub fn add(&mut self, name: &str, value: &str)
        ensures
            final(self)@ == old(self)@.push((name@, value@)),
    {
        self.entries.push(Cookie { name: name.to_owned(), value: value.to_owned() });
        assert(self@ =~= old(self)@.push((name@, value@)));
    }

    /// Takes out every cookie of this name.
    pub fn remove(&mut self, name: &str)
        ensures
            final(self)@ == cookies_without(old(self)@, name@),
    {
        let ghost keep = |cookie: (Seq<char>, Seq<char>)| cookie.0 != name@;
        let ghost start = self@;
        let ghost mut seen: int = 0;
        let mut i: usize = 0;
        proof {
            reveal(Seq::filter);
            assert(start.take(0).filter(keep) =~= Seq::<(Seq<char>, Seq<char>)>::empty());
            assert(start.skip(0) =~= start);
        }
        while i < self.entries.len()
            invariant
                0 <= seen <= start.len(),
                keep == |cookie: (Seq<char>, Seq<char>)| cookie.0 != name@,
                i == start.take(seen).filter(keep).len(),
                self@ == start.take(seen).filter(keep) + start.skip(seen),
            decreases start.len() - seen,
        {
            let ghost before = self@;
            let ghost kept = start.take(seen).filter(keep);
            assert(before[i as int] == start[seen]);
            assert(start.take(seen + 1).filter(keep) == if keep(start[seen]) {
                kept.push(start[seen])
            } else {
                kept
            }) by {
                assert(start.take(seen + 1).drop_last() =~= start.take(seen));
                reveal(Seq::filter);
            }
            if self.entries[i].name.as_str().eq(name) {
                self.entries.remove(i);
                assert(self@ =~= before.remove(i as int));
                assert(before.remove(i as int) =~= kept + start.skip(seen + 1));
            } else {
                i += 1;
                assert(self@ =~= kept.push(start[seen]) + start.skip(seen + 1));
            }
            proof {
                seen = seen + 1;
            }
        }
        proof {
            assert(start.take(seen) =~= start);
            assert(self@ =~= start.filter(keep));
        }
    }

    /// The value of the first cookie of this name.
    pub fn get(&self, name: &str) -> (r: Option<&str>)
        ensures
            text_of(r) == cookie_value(self@, name@),
    {
        let mut i: usize = 0;
        while i < self.entries.len()
            invariant
                i <= self.entries.len(),
                forall|j: int| 0 <= j < i ==> (#[trigger] self@[j]).0 != name@,
            decreases self.entries.len() - i,
        {
            if self.entries[i].name.as_str().eq(name) {
                proof {
                    lemma_cookie_value_from(self@, name@, i as int);
                    assert(self@.skip(i as int)[0] == self@[i as int]);
                }
                return Some(self.entries[i].value.as_str());
            }
            i += 1;
        }
        proof {
            lemma_cookie_value_from(self@, name@, i as int);
        }
        None
    }
}

/// A request as the stages see it.
#[derive(Clone, Debug)]
pub struct Request {
    pub method: Method,
    pub uri: String,
    /// The address the request came from, where the transport gives one.
    pub client_ip: Option<ClientAddr>,
    pub headers: HeaderMap,
    /// The cookies that were sent in the clear.
    pub cookies: CookieJar,
    /// The cookies that were sent sealed and opened with the server's key.
    pub private_cookies: CookieJar,
    /// The identifier assigned to this request, once one was assigned.
    pub request_id: Option<String>,
}

impl Request {
    /// A request with no address, no headers, no cookies and no identifier.
    pub fn new(method: Method, uri: &str) -> (r: Request)
        ensures
            r.method == method,
            r.uri@ == uri@,
            r.client_ip is None,
            r.headers@.len() == 0,
            r.cookies@.len() == 0,
            r.private_cookies@.len() == 0,
            r.request_id is None,
    {
        Request {
            method,
            uri: uri.to_owned(),
            client_ip: None,
            headers: HeaderMap::new(),
            cookies: CookieJar::new(),
            private_cookies: CookieJar::new(),
            request_id: None,
        }
    }

    /// A `GET` request for `uri`.
    pub fn get(uri: &str) -> (r: Request)
        ensures
            r.method == Method::Get,
            r.uri@ == uri@,
            r.client_ip is None,
            r.headers@.len() == 0,
            r.cookies@.len() == 0,
            r.private_cookies@.len() == 0,
            r.request_id is None,
    {
        Request::new(Method::Get, uri)
    }

    /// The same request, come from `addr`.
    pub fn remote(self, addr: ClientAddr) -> (r: Request)
        ensures
            r == (Request { client_ip: Some(addr), ..self }),
    {
        let mut r = self;
        r.client_ip = Some(addr);
        r
    }

    /// The same request with one more header line.
    pub fn header(self, name: &str, value: &str) -> (r: Request)
        ensures
            r.headers@ == self.headers@.push((name@, value@)),
            r == (Request { headers: r.headers, ..self }),
    {
        let mut r = self;
        r.headers.add(name, value);
        r
    }

    /// The same request with one more cookie sent in the clear.
    pub fn cookie(self, name: &str, value: &str) -> (r: Request)
        ensures
            r.cookies@ == self.cookies@.push((name@, value@)),
            r == (Request { cookies: r.cookies, ..self }),
    {
        let mut r = self;
        r.cookies.add(name, value);
        r
    }

    /// The same request with one more sealed cookie.
    pub fn private_cookie(self, name: &str, value: &str) -> (r: Request)
        ensures
            r.private_cookies@ == self.private_cookies@.push((name@, value@)),
            r == (Request { private_cookies: r.private_cookies, ..self }),
    {
        let mut r = self;
        r.private_cookies.add(name, value);
        r
    }
}

/// A response as the stages see it: the body is fully in memory.
#[derive(Clone, Debug)]
pub struct Response {
    pub status: Status,
    pub headers: HeaderMap,
    pub body: Vec<u8>,
}

impl Response {
    /// An empty response with the given status.
    pub fn new(status: Status) -> (r: Response)
        ensures
            r.status == status,
            r.headers@.len() == 0,
            r.body@.len() == 0,
    {
        Response { status, headers: HeaderMap::new(), body: Vec::new() }
    }

    /// A response with the given status and body, and no headers.
    pub fn with_body(status: Status, body: Vec<u8>) -> (r: Response)
        ensures
            r.status == status,
            r.headers@.len() == 0,
            r.body == body,
    {
        Response { status, headers: HeaderMap::new(), body }
    }

    /// The body, by value.
    pub fn into_bytes(self) -> (r: Vec<u8>)
        ensures
            r == self.body,
    {
        self.body
    }

    /// The status.
    pub fn status(&self) -> (r: Status)
        ensures
            r == self.status,
    {
        self.status
    }

    /// The headers.
    pub fn headers(&self) -> (r: &HeaderMap)
        ensures
            r == &self.headers,
    {
        &self.headers
    }

    /// The body, by reference.
    pub fn body(&self) -> (r: &Vec<u8>)
        ensures
            r == &self.body,
    {
        &self.body
    }

    /// Sets the header `name` to the one value `value`.
    pub fn set_header(&mut self, name: &str, value: &str)
        ensures
            final(self).status == old(self).status,
            final(self).body == old(self).body,
            final(self).headers@ == without(old(self).headers@, name@).push((name@, value@)),
    {
        self.headers.replace(name, value);
    }
}

} // verus!
