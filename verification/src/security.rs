//! Protective response headers.

use vstd::prelude::*;
use crate::fairing::{Info, Kind};
use crate::http::{declares, Lines, Response};
use crate::text::{folded, same_name};

verus! {

/// The header lines that one setting stands for: one line where a value is
/// set, none where it is not.
pub open spec fn setting(name: Seq<char>, value: Option<&'static str>) -> Lines {
    match value {
        Some(text) => seq![(name, text@)],
        None => Seq::empty(),
    }
}

/// Whether a setting shows in the headers `after` as it should, given the
/// headers `before`: a value that is set stands in a line of its own; for a
/// value that is not set, the header is declared only if it was before.
pub open spec fn shows(
    name: Seq<char>,
    value: Option<&'static str>,
    before: Lines,
    after: Lines,
) -> bool {
    match value {
        Some(text) => after.contains((name, text@)),
        None => declares(after, name) == declares(before, name),
    }
}

/// The protective headers to add to every response. A header whose value is
/// not set is not added.
#[derive(Clone, Copy, Debug)]
pub struct SecurityHeaders {
    pub content_security_policy: Option<&'static str>,
    pub xss_protection: Option<&'static str>,
    pub content_type_options: Option<&'static str>,
    pub frame_options: Option<&'static str>,
    pub referrer_policy: Option<&'static str>,
    pub strict_transport_security: Option<&'static str>,
    pub permissions_policy: Option<&'static str>,
}

impl SecurityHeaders {
    /// The lines that these settings add to a response, in their order.
    pub open spec fn lines(&self) -> Lines {
        setting("Content-Security-Policy"@, self.content_security_policy) + setting(
            "X-XSS-Protection"@,
            self.xss_protection,
        ) + setting("X-Content-Type-Options"@, self.content_type_options) + setting(
            "X-Frame-Options"@,
            self.frame_options,
        ) + setting("Referrer-Policy"@, self.referrer_policy) + setting(
            "Strict-Transport-Security"@,
            self.strict_transport_security,
        ) + setting("Permissions-Policy"@, self.permissions_policy)
    }

    /// The default settings: a restrictive content security policy,
    /// protection against cross-site scripting and against framing by other
    /// origins, a strict referrer policy, transport security for a year, and
    /// no access to camera, microphone and location.
    pub open spec fn default_headers() -> SecurityHeaders {
        SecurityHeaders {
            content_security_policy: Some(
                "default-src 'self'; script-src 'self'; object-src 'none';",
            ),
            xss_protection: Some("1; mode=block"),
            content_type_options: None,
            frame_options: Some("SAMEORIGIN"),
            referrer_policy: Some("strict-origin-when-cross-origin"),
            strict_transport_security: Some("max-age=31536000; includeSubDomains"),
            permissions_policy: Some("camera=(), microphone=(), geolocation=()"),
        }
    }

    /// The name of the stage and its phases.

    pub fn info(&self) -> (r: Info)
        ensures
            r.name@ == "Response Security Headers"@,
            r.kind == (Kind { request: false, response: true }),
    {
        Info { name: "Response Security Headers", kind: Kind::response() }
    }

    /// The response phase: the lines of the settings are added after the
    /// headers that the response has. Nothing else changes.
    pub fn on_response(&self, response: &mut Response)
        ensures
            final(response).status == old(response).status,
            final(response).body == old(response).body,
            final(response).headers@ == old(response).headers@ + self.lines(),
    {
        add_setting(response, "Content-Security-Policy", self.content_security_policy);
        add_setting(response, "X-XSS-Protection", self.xss_protection);
        add_setting(response, "X-Content-Type-Options", self.content_type_options);
        add_setting(response, "X-Frame-Options", self.frame_options);
        add_setting(response, "Referrer-Policy", self.referrer_policy);
        add_setting(response, "Strict-Transport-Security", self.strict_transport_security);
        add_setting(response, "Permissions-Policy", self.permissions_policy);
        assert(response.headers@ =~= old(response).headers@ + self.lines());
    }
}

/// Adds the line of one setting to a response.
fn add_setting(response: &mut Response, name: &str, value: Option<&'static str>)
    ensures
        final(response).status == old(response).status,
        final(response).body == old(response).body,
        final(response).headers@ == old(response).headers@ + setting(name@, value),
{
    match value {
        Some(text) => {
            response.headers.add(name, text);
            assert(response.headers@ =~= old(response).headers@ + setting(name@, value));
        },
        None => {
            assert(response.headers@ =~= old(response).headers@ + setting(name@, value));
        },
    }
}

impl Default for SecurityHeaders {
    fn default() -> (r: SecurityHeaders)
        ensures
            r == SecurityHeaders::default_headers(),
    {
        SecurityHeaders {
            content_security_policy: Some(
                "default-src 'self'; script-src 'self'; object-src 'none';",
            ),
            xss_protection: Some("1; mode=block"),
            content_type_options: None,
            frame_options: Some("SAMEORIGIN"),
            referrer_policy: Some("strict-origin-when-cross-origin"),
            strict_transport_security: Some("max-age=31536000; includeSubDomains"),
            permissions_policy: Some("camera=(), microphone=(), geolocation=()"),
        }
    }
}

/// The names of the seven headers differ from one another, also without
/// regard to case.
pub proof fn lemma_names_differ()
    ensures
        !same_name("Content-Security-Policy"@, "X-XSS-Protection"@),
        !same_name("Content-Security-Policy"@, "X-Content-Type-Options"@),
        !same_name("Content-Security-Policy"@, "X-Frame-Options"@),
        !same_name("Content-Security-Policy"@, "Referrer-Policy"@),
        !same_name("Content-Security-Policy"@, "Strict-Transport-Security"@),
        !same_name("Content-Security-Policy"@, "Permissions-Policy"@),
        !same_name("X-XSS-Protection"@, "X-Content-Type-Options"@),
        !same_name("X-XSS-Protection"@, "X-Frame-Options"@),
        !same_name("X-XSS-Protection"@, "Referrer-Policy"@),
        !same_name("X-XSS-Protection"@, "Strict-Transport-Security"@),
        !same_name("X-XSS-Protection"@, "Permissions-Policy"@),
        !same_name("X-Content-Type-Options"@, "X-Frame-Options"@),
        !same_name("X-Content-Type-Options"@, "Referrer-Policy"@),
        !same_name("X-Content-Type-Options"@, "Strict-Transport-Security"@),
        !same_name("X-Content-Type-Options"@, "Permissions-Policy"@),
        !same_name("X-Frame-Options"@, "Referrer-Policy"@),
        !same_name("X-Frame-Options"@, "Strict-Transport-Security"@),
        !same_name("X-Frame-Options"@, "Permissions-Policy"@),
        !same_name("Referrer-Policy"@, "Strict-Transport-Security"@),
        !same_name("Referrer-Policy"@, "Permissions-Policy"@),
        !same_name("Strict-Transport-Security"@, "Permissions-Policy"@),
{
    reveal_strlit("Content-Security-Policy");
    reveal_strlit("X-XSS-Protection");
    reveal_strlit("X-Content-Type-Options");
    reveal_strlit("X-Frame-Options");
    reveal_strlit("Referrer-Policy");
    reveal_strlit("Strict-Transport-Security");
    reveal_strlit("Permissions-Policy");
    assert(folded("Content-Security-Policy"@).len() == 23);
    assert(folded("X-XSS-Protection"@).len() == 16);
    assert(folded("X-Content-Type-Options"@).len() == 22);
    assert(folded("X-Frame-Options"@).len() == 15);
    assert(folded("Referrer-Policy"@).len() == 15);
    assert(folded("Strict-Transport-Security"@).len() == 25);
    assert(folded("Permissions-Policy"@).len() == 18);
    assert(folded("X-Frame-Options"@)[0] == 'x');
    assert(folded("Referrer-Policy"@)[0] == 'r');
}

/// Each line of the settings carries the name of a header whose value is
/// set.
pub proof fn lemma_lines_are_set(config: SecurityHeaders, j: int)
    requires
        0 <= j < config.lines().len(),
    ensures
        ({
            let name = config.lines()[j].0;
            ||| name == "Content-Security-Policy"@ && config.content_security_policy is Some
            ||| name == "X-XSS-Protection"@ && config.xss_protection is Some
            ||| name == "X-Content-Type-Options"@ && config.content_type_options is Some
            ||| name == "X-Frame-Options"@ && config.frame_options is Some
            ||| name == "Referrer-Policy"@ && config.referrer_policy is Some
            ||| name == "Strict-Transport-Security"@ && config.strict_transport_security is Some
            ||| name == "Permissions-Policy"@ && config.permissions_policy is Some
        }),
{
}

/// Where no added line carries a name, that name is declared after the
/// lines are added only if it was before.
proof fn lemma_unset_stays(before: Lines, added: Lines, name: Seq<char>)
    requires
        forall|j: int| 0 <= j < added.len() ==> !same_name(#[trigger] added[j].0, name),
    ensures
        declares(before + added, name) == declares(before, name),
{
    let after = before + added;
    if declares(before, name) {
        let i = choose|i: int| 0 <= i < before.len() && same_name(#[trigger] before[i].0, name);
        assert(same_name(after[i].0, name));
    }
    if declares(after, name) {
        let i = choose|i: int| 0 <= i < after.len() && same_name(#[trigger] after[i].0, name);
        if i >= before.len() {
            assert(!same_name(added[i - before.len()].0, name));
        } else {
            assert(same_name(before[i].0, name));
        }
    }
}

/// Where the header `name` is one of the seven and its value is not set, no
/// line of the settings carries that name.
proof fn lemma_unset_adds_nothing(config: SecurityHeaders, name: Seq<char>)
    requires
        ({
            ||| name == "Content-Security-Policy"@ && config.content_security_policy is None
            ||| name == "X-XSS-Protection"@ && config.xss_protection is None
            ||| name == "X-Content-Type-Options"@ && config.content_type_options is None
            ||| name == "X-Frame-Options"@ && config.frame_options is None
            ||| name == "Referrer-Policy"@ && config.referrer_policy is None
            ||| name == "Strict-Transport-Security"@ && config.strict_transport_security is None
            ||| name == "Permissions-Policy"@ && config.permissions_policy is None
        }),
    ensures
        forall|j: int|
            0 <= j < config.lines().len() ==> !same_name(#[trigger] config.lines()[j].0, name),
{
    lemma_names_differ();
    assert forall|j: int| 0 <= j < config.lines().len() implies !same_name(
        #[trigger] config.lines()[j].0,
        name,
    ) by {
        lemma_lines_are_set(config, j);
    }
}

/// A value that is set stands in a line of the settings.
proof fn lemma_set_is_added(config: SecurityHeaders)
    ensures
        config.content_security_policy matches Some(text) ==> config.lines().contains(
            ("Content-Security-Policy"@, text@),
        ),
        config.xss_protection matches Some(text) ==> config.lines().contains(
            ("X-XSS-Protection"@, text@),
        ),
        config.content_type_options matches Some(text) ==> config.lines().contains(
            ("X-Content-Type-Options"@, text@),
        ),
        config.frame_options matches Some(text) ==> config.lines().contains(
            ("X-Frame-Options"@, text@),
        ),
        config.referrer_policy matches Some(text) ==> config.lines().contains(
            ("Referrer-Policy"@, text@),
        ),
        config.strict_transport_security matches Some(text) ==> config.lines().contains(
            ("Strict-Transport-Security"@, text@),
        ),
        config.permissions_policy matches Some(text) ==> config.lines().contains(
            ("Permissions-Policy"@, text@),
        ),
{
    let a = setting("Content-Security-Policy"@, config.content_security_policy);
    let b = a + setting("X-XSS-Protection"@, config.xss_protection);
    let c = b + setting("X-Content-Type-Options"@, config.content_type_options);
    let d = c + setting("X-Frame-Options"@, config.frame_options);
    let e = d + setting("Referrer-Policy"@, config.referrer_policy);
    let f = e + setting("Strict-Transport-Security"@, config.strict_transport_security);
    let g = f + setting("Permissions-Policy"@, config.permissions_policy);
    assert(g == config.lines());
    if let Some(text) = config.content_security_policy {
        assert(g[0] == ("Content-Security-Policy"@, text@));
    }
    if let Some(text) = config.xss_protection {
        assert(g[a.len() as int] == ("X-XSS-Protection"@, text@));
    }
    if let Some(text) = config.content_type_options {
        assert(g[b.len() as int] == ("X-Content-Type-Options"@, text@));
    }
    if let Some(text) = config.frame_options {
        assert(g[c.len() as int] == ("X-Frame-Options"@, text@));
    }
    if let Some(text) = config.referrer_policy {
        assert(g[d.len() as int] == ("Referrer-Policy"@, text@));
    }
    if let Some(text) = config.strict_transport_security {
        assert(g[e.len() as int] == ("Strict-Transport-Security"@, text@));
    }
    if let Some(text) = config.permissions_policy {
        assert(g[f.len() as int] == ("Permissions-Policy"@, text@));
    }
}

/// One setting shows in a response after the lines of the settings are
/// added to it.
proof fn lemma_setting_shows(
    config: SecurityHeaders,
    before: Lines,
    name: Seq<char>,
    value: Option<&'static str>,
)
    requires
        value matches Some(text) ==> config.lines().contains((name, text@)),
        value is None ==> forall|j: int|
            0 <= j < config.lines().len() ==> !same_name(#[trigger] config.lines()[j].0, name),
    ensures
        shows(name, value, before, before + config.lines()),
{
    let after = before + config.lines();
    match value {
        Some(text) => {
            let j = choose|j: int|
                0 <= j < config.lines().len() && config.lines()[j] == (name, text@);
            assert(after[before.len() + j] == (name, text@));
        },
        None => {
            lemma_unset_stays(before, config.lines(), name);
        },
    }
}

/// Header additivity: after the response phase, every header whose value is
/// set stands in the response with that value, a header whose value is not
/// set is declared only if the response declared it before, and the lines
/// that the response had are still there, in their places.
pub proof fn lemma_headers_are_additive(config: SecurityHeaders, before: Lines)
    ensures
        ({
            let after = before + config.lines();
            &&& shows("Content-Security-Policy"@, config.content_security_policy, before, after)
            &&& shows("X-XSS-Protection"@, config.xss_protection, before, after)
            &&& shows("X-Content-Type-Options"@, config.content_type_options, before, after)
            &&& shows("X-Frame-Options"@, config.frame_options, before, after)
            &&& shows("Referrer-Policy"@, config.referrer_policy, before, after)
            &&& shows("Strict-Transport-Security"@, config.strict_transport_security, before, after)
            &&& shows("Permissions-Policy"@, config.permissions_policy, before, after)
            &&& forall|i: int| 0 <= i < before.len() ==> after[i] == before[i]
        }),
{
    lemma_set_is_added(config);
    if config.content_security_policy is None {
        lemma_unset_adds_nothing(config, "Content-Security-Policy"@);
    }
    lemma_setting_shows(config, before, "Content-Security-Policy"@, config.content_security_policy);
    if config.xss_protection is None {
        lemma_unset_adds_nothing(config, "X-XSS-Protection"@);
    }
    lemma_setting_shows(config, before, "X-XSS-Protection"@, config.xss_protection);
    if config.content_type_options is None {
        lemma_unset_adds_nothing(config, "X-Content-Type-Options"@);
    }
    lemma_setting_shows(config, before, "X-Content-Type-Options"@, config.content_type_options);
    if config.frame_options is None {
        lemma_unset_adds_nothing(config, "X-Frame-Options"@);
    }
    lemma_setting_shows(config, before, "X-Frame-Options"@, config.frame_options);
    if config.referrer_policy is None {
        lemma_unset_adds_nothing(config, "Referrer-Policy"@);
    }
    lemma_setting_shows(config, before, "Referrer-Policy"@, config.referrer_policy);
    if config.strict_transport_security is None {
        lemma_unset_adds_nothing(config, "Strict-Transport-Security"@);
    }
    lemma_setting_shows(
        config,
        before,
        "Strict-Transport-Security"@,
        config.strict_transport_security,
    );
    if config.permissions_policy is None {
        lemma_unset_adds_nothing(config, "Permissions-Policy"@);
    }
    lemma_setting_shows(config, before, "Permissions-Policy"@, config.permissions_policy);
}

} // verus!
